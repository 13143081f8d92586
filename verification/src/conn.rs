//! The in-process model of one established bidirectional connection.
//!
//! A connection is two byte queues, one per direction, together with a
//! write-closed flag for each endpoint. The two endpoints are told apart by
//! a boolean side; the queue an endpoint sends into is the queue its peer
//! receives from. All transitions are exact: each operation's contract
//! states the whole new state and the whole result.

use vstd::prelude::*;

verus! {

/// The single error kind this layer surfaces. The underlying transport
/// cause is passed through undisturbed; nothing is reclassified.
#[derive(Clone, Copy, Debug, PartialEq, Eq, Structural)]
pub enum IoError {
    /// A receive found no queued bytes while the peer may still send:
    /// the blocking call it stands for would not have returned yet.
    NotReady,
    /// A send was attempted after this endpoint closed its write side.
    Closed,
}

/// The mathematical value of a [`DuplexState`].
#[verifier::ext_equal]
pub ghost struct DuplexView {
    /// Identity of the underlying connection (both endpoints share it).
    pub conn: u64,
    /// Bytes sent by endpoint A and not yet received by endpoint B.
    pub a_to_b: Seq<u8>,
    /// Bytes sent by endpoint B and not yet received by endpoint A.
    pub b_to_a: Seq<u8>,
    /// Endpoint A has closed its write side.
    pub a_closed: bool,
    /// Endpoint B has closed its write side.
    pub b_closed: bool,
}

/// One established connection: the shared state both endpoints operate on.
pub struct DuplexState {
    pub conn: u64,
    pub a_to_b: Vec<u8>,
    pub b_to_a: Vec<u8>,
    pub a_closed: bool,
    pub b_closed: bool,
}

impl View for DuplexState {
    type V = DuplexView;

    open spec fn view(&self) -> DuplexView {
        DuplexView {
            conn: self.conn,
            a_to_b: self.a_to_b@,
            b_to_a: self.b_to_a@,
            a_closed: self.a_closed,
            b_closed: self.b_closed,
        }
    }
}

/// The queue the given endpoint sends into.
pub open spec fn outgoing(v: DuplexView, side: bool) -> Seq<u8> {
    if side {
        v.a_to_b
    } else {
        v.b_to_a
    }
}

/// The queue the given endpoint receives from: its peer's outgoing queue.
pub open spec fn incoming(v: DuplexView, side: bool) -> Seq<u8> {
    outgoing(v, !side)
}

/// Whether the given endpoint has closed its write side.
pub open spec fn write_closed(v: DuplexView, side: bool) -> bool {
    if side {
        v.a_closed
    } else {
        v.b_closed
    }
}

/// The state after the given endpoint sends `buf`: its outgoing queue grows
/// by exactly `buf`, at the end, and nothing else changes.
pub open spec fn send_spec(v: DuplexView, side: bool, buf: Seq<u8>) -> DuplexView {
    if side {
        DuplexView { a_to_b: v.a_to_b + buf, ..v }
    } else {
        DuplexView { b_to_a: v.b_to_a + buf, ..v }
    }
}

/// How many bytes a receive with room for `max` takes: all queued bytes,
/// capped at `max`.
pub open spec fn recv_count(v: DuplexView, side: bool, max: nat) -> nat {
    min_len(incoming(v, side).len(), max)
}

/// The bytes such a receive returns: the front of the incoming queue.
pub open spec fn recv_bytes(v: DuplexView, side: bool, max: nat) -> Seq<u8> {
    incoming(v, side).take(recv_count(v, side, max) as int)
}

/// The state after such a receive: the returned bytes leave the queue and
/// nothing else changes.
pub open spec fn recv_rest(v: DuplexView, side: bool, max: nat) -> DuplexView {
    let rest = incoming(v, side).skip(recv_count(v, side, max) as int);
    if side {
        DuplexView { b_to_a: rest, ..v }
    } else {
        DuplexView { a_to_b: rest, ..v }
    }
}

/// The state after the given endpoint closes its write side.
pub open spec fn close_spec(v: DuplexView, side: bool) -> DuplexView {
    if side {
        DuplexView { a_closed: true, ..v }
    } else {
        DuplexView { b_closed: true, ..v }
    }
}

impl DuplexState {
    /// A fresh established connection with the given identity: both queues
    /// empty, both write sides open.
    pub fn establish(conn: u64) -> (s: DuplexState)
        ensures
            s@ == (DuplexView {
                conn,
                a_to_b: Seq::<u8>::empty(),
                b_to_a: Seq::<u8>::empty(),
                a_closed: false,
                b_closed: false,
            }),
    {
        let s = DuplexState {
            conn,
            a_to_b: Vec::new(),
            b_to_a: Vec::new(),
            a_closed: false,
            b_closed: false,
        };
        proof {
            assert(s@ =~= (DuplexView {
                conn,
                a_to_b: Seq::<u8>::empty(),
                b_to_a: Seq::<u8>::empty(),
                a_closed: false,
                b_closed: false,
            }));
        }
        s
    }

    /// Send `buf` from the given endpoint. Succeeds, queueing every byte of
    /// `buf` in order, if and only if this endpoint's write side is open.
    pub fn send(&mut self, side: bool, buf: &[u8]) -> (r: Result<usize, IoError>)
        ensures
            match r {
                Ok(n) => {
                    &&& !write_closed(old(self)@, side)
                    &&& n == buf@.len()
                    &&& final(self)@ == send_spec(old(self)@, side, buf@)
                },
                Err(e) => {
                    &&& write_closed(old(self)@, side)
                    &&& e == IoError::Closed
                    &&& final(self)@ == old(self)@
                },
            },
    {
        let closed = if side {
            self.a_closed
        } else {
            self.b_closed
        };
        if closed {
            return Err(IoError::Closed);
        }
        if side {
            append_bytes(&mut self.a_to_b, buf);
            proof {
                assert(self@ =~= send_spec(old(self)@, side, buf@));
            }
        } else {
            append_bytes(&mut self.b_to_a, buf);
            proof {
                assert(self@ =~= send_spec(old(self)@, side, buf@));
            }
        }
        Ok(buf.len())
    }

    /// Receive up to `max` bytes at the given endpoint. Returns the front of
    /// the incoming queue, removing it. A receive with no room returns the
    /// empty success at once, taking nothing. With room, an empty result is
    /// the end-of-stream signal: it is returned, and only returned, when the
    /// queue is drained and the peer has closed its write side. While the
    /// peer may still send, an empty queue reports `NotReady` instead — the
    /// blocking call this models would not have returned yet.
    pub fn recv(&mut self, side: bool, max: usize) -> (r: Result<Vec<u8>, IoError>)
        ensures
            match r {
                Ok(bytes) => {
                    &&& max == 0 || incoming(old(self)@, side).len() > 0 || write_closed(
                        old(self)@,
                        !side,
                    )
                    &&& bytes@ == recv_bytes(old(self)@, side, max as nat)
                    &&& final(self)@ == recv_rest(old(self)@, side, max as nat)
                    &&& bytes@.len() == recv_count(old(self)@, side, max as nat)
                },
                Err(e) => {
                    &&& max > 0
                    &&& incoming(old(self)@, side).len() == 0
                    &&& !write_closed(old(self)@, !side)
                    &&& e == IoError::NotReady
                    &&& final(self)@ == old(self)@
                },
            },
    {
        if max == 0 {
            let bytes: Vec<u8> = Vec::new();
            proof {
                assert(bytes@ =~= recv_bytes(self@, side, 0));
                assert(self@ =~= recv_rest(self@, side, 0));
            }
            return Ok(bytes);
        }
        let avail = if side {
            self.b_to_a.len()
        } else {
            self.a_to_b.len()
        };
        if avail == 0 {
            let peer_closed = if side {
                self.b_closed
            } else {
                self.a_closed
            };
            if peer_closed {
                let bytes: Vec<u8> = Vec::new();
                proof {
                    assert(bytes@ =~= recv_bytes(self@, side, max as nat));
                    assert(self@ =~= recv_rest(self@, side, max as nat));
                }
                return Ok(bytes);
            }
            return Err(IoError::NotReady);
        }
        if side {
            let bytes = drain_front(&mut self.b_to_a, max);
            proof {
                assert(self@ =~= recv_rest(old(self)@, side, max as nat));
            }
            Ok(bytes)
        } else {
            let bytes = drain_front(&mut self.a_to_b, max);
            proof {
                assert(self@ =~= recv_rest(old(self)@, side, max as nat));
            }
            Ok(bytes)
        }
    }

    /// Close the write side of the given endpoint. After this, sends from
    /// this endpoint fail, and once its outgoing queue is drained the peer
    /// reads the end-of-stream signal.
    pub fn close_write(&mut self, side: bool)
        ensures
            final(self)@ == close_spec(old(self)@, side),
    {
        if side {
            self.a_closed = true;
        } else {
            self.b_closed = true;
        }
        proof {
            assert(self@ =~= close_spec(old(self)@, side));
        }
    }
}

/// Remove and return the first `min(max, q.len())` bytes of `q`, in order.
fn drain_front(q: &mut Vec<u8>, max: usize) -> (r: Vec<u8>)
    ensures
        r@ == old(q)@.take(min_len(old(q)@.len(), max as nat) as int),
        final(q)@ == old(q)@.skip(min_len(old(q)@.len(), max as nat) as int),
{
    let k = if max <= q.len() {
        max
    } else {
        q.len()
    };
    let mut out: Vec<u8> = Vec::new();
    let mut i: usize = 0;
    while i < k
        invariant
            i <= k,
            k == min_len(q@.len(), max as nat),
            out@ == q@.take(i as int),
        decreases k - i,
    {
        out.push(q[i]);
        proof {
            assert(out@ =~= q@.take(i + 1 as int));
        }
        i = i + 1;
    }
    let mut rest: Vec<u8> = Vec::new();
    let mut j: usize = k;
    while j < q.len()
        invariant
            k <= j <= q@.len(),
            rest@ == q@.subrange(k as int, j as int),
        decreases q@.len() - j,
    {
        rest.push(q[j]);
        proof {
            assert(rest@ =~= q@.subrange(k as int, j + 1 as int));
        }
        j = j + 1;
    }
    proof {
        assert(rest@ =~= q@.skip(k as int));
    }
    *q = rest;
    out
}

/// The smaller of a queue length and a byte budget.
pub open spec fn min_len(len: nat, max: nat) -> nat {
    if max <= len {
        max
    } else {
        len
    }
}

/// A send followed by a receive at the peer hands over exactly the sent
/// bytes, in order: if the queue towards the peer starts empty and the
/// receive has room, the peer gets `buf` itself and the queue is empty
/// again afterwards.
pub proof fn lemma_send_recv_round_trip(v: DuplexView, side: bool, buf: Seq<u8>, max: nat)
    requires
        outgoing(v, side).len() == 0,
        buf.len() <= max,
    ensures
        recv_bytes(send_spec(v, side, buf), !side, max) == buf,
        incoming(recv_rest(send_spec(v, side, buf), !side, max), !side).len() == 0,
{
    let sent = send_spec(v, side, buf);
    assert(incoming(sent, !side) =~= buf);
    assert(recv_bytes(sent, !side, max) =~= buf);
}

/// Sends serialize without interleaving: two sends from the same endpoint,
/// in whichever order the per-call lock grants them, leave each call's bytes
/// contiguous in the queue, in completion order.
pub proof fn lemma_sends_are_contiguous(v: DuplexView, side: bool, first: Seq<u8>, second: Seq<u8>)
    ensures
        outgoing(send_spec(send_spec(v, side, first), side, second), side) == outgoing(v, side)
            + first + second,
        outgoing(send_spec(send_spec(v, side, second), side, first), side) == outgoing(v, side)
            + second + first,
{
}

/// Receiving after the peer has closed its write side and its queue is
/// drained yields the empty end-of-stream signal — not an error — and
/// leaves the connection as it was.
pub proof fn lemma_recv_at_end_of_stream(v: DuplexView, side: bool, max: nat)
    requires
        incoming(v, side).len() == 0,
        write_closed(v, !side),
    ensures
        recv_count(v, side, max) == 0,
        recv_bytes(v, side, max) == Seq::<u8>::empty(),
        recv_rest(v, side, max) == v,
{
    assert(recv_bytes(v, side, max) =~= Seq::<u8>::empty());
    assert(recv_rest(v, side, max) =~= v);
}

/// A receive never invents, loses or reorders bytes: what it returns and
/// what it leaves behind are a two-way split of the incoming queue.
pub proof fn lemma_recv_splits_queue(v: DuplexView, side: bool, max: nat)
    ensures
        recv_bytes(v, side, max) + incoming(recv_rest(v, side, max), side) == incoming(v, side),
{
    assert(recv_bytes(v, side, max) + incoming(recv_rest(v, side, max), side) =~= incoming(
        v,
        side,
    ));
}

/// Append every byte of `buf` to the end of `q`, in order.
fn append_bytes(q: &mut Vec<u8>, buf: &[u8])
    ensures
        final(q)@ == old(q)@ + buf@,
{
    let mut i: usize = 0;
    while i < buf.len()
        invariant
            i <= buf@.len(),
            q@ == old(q)@ + buf@.take(i as int),
        decreases buf@.len() - i,
    {
        q.push(buf[i]);
        proof {
            assert(q@ =~= old(q)@ + buf@.take(i + 1 as int));
        }
        i = i + 1;
    }
    proof {
        assert(buf@.take(i as int) =~= buf@);
    }
}

} // verus!
