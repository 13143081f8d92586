//! The shareable endpoint handles and the uniform stream type.
//!
//! A [`Socket`] is one endpoint handle of a connection; duplicating it gives
//! an independent handle onto the same shared state, as duplicating an OS
//! descriptor would. A [`WrappedTlsStream`] shares one established encrypted
//! session among any number of owners, serializing every call through an
//! exclusive lock held for the duration of that call. A [`Stream`] is the
//! uniform surface over both: a closed variant type whose tag is fixed at
//! construction.

use std::sync::Arc;
use vstd::prelude::*;
use vstd::rwlock::{RwLock, RwLockPredicate};
use crate::conn::{DuplexState, IoError};

verus! {

/// Relies on alloc::sync::Arc::clone: the clone is a handle to the same
/// allocation, so as a value it equals the handle it was made from.
#[verifier::external_body]
fn share_arc<T>(h: &Arc<T>) -> (r: Arc<T>)
    ensures
        r == *h,
{
    h.clone()
}

/// The lock invariant of a shared connection: every state ever stored keeps
/// the connection identity it was established with.
pub struct ConnPred {
    pub conn: u64,
}

impl RwLockPredicate<DuplexState> for ConnPred {
    open spec fn inv(self, s: DuplexState) -> bool {
        s.conn == self.conn
    }
}

/// One endpoint handle of a connection. Handles obtained by duplication
/// share the same state and serialize their calls against each other; each
/// I/O call takes exclusive access for its own duration only.
pub struct Socket {
    conn: u64,
    side: bool,
    state: Arc<RwLock<DuplexState, ConnPred>>,
}

impl Socket {
    /// The identity of the connection this handle belongs to.
    pub closed spec fn conn(self) -> u64 {
        self.conn
    }

    /// Which endpoint of the connection this handle is.
    pub closed spec fn side(self) -> bool {
        self.side
    }

    /// The handle is tied to its shared state: the lock admits exactly the
    /// states that carry this handle's connection identity.
    pub closed spec fn wf(self) -> bool {
        (*self.state).pred() == (ConnPred { conn: self.conn })
    }

    /// Two handles are the two ends of one connection.
    pub open spec fn is_peer_of(self, other: Socket) -> bool {
        self.conn() == other.conn() && self.side() != other.side()
    }

    /// The connection identity, for connection-level bookkeeping. Handles
    /// of one connection — both endpoints, and every duplicate — agree on it.
    pub fn conn_id(&self) -> (r: u64)
        ensures
            r == self.conn(),
    {
        self.conn
    }

    /// Duplicate this handle. The duplicate equals this handle as a value —
    /// it refers to the very same shared connection state, not to another
    /// connection that merely carries the same identity — and is
    /// independently usable. Kept fallible for uniformity with descriptor
    /// duplication, though no failure exists here.
    pub fn try_clone(&self) -> (r: Result<Socket, IoError>)
        requires
            self.wf(),
        ensures
            r is Ok,
            r matches Ok(s) ==> s == *self,
            r matches Ok(s) ==> s.wf() && s.conn() == self.conn() && s.side() == self.side(),
    {
        Ok(
            Socket {
                conn: self.conn,
                side: self.side,
                state: share_arc(&self.state),
            },
        )
    }

    /// Write `buf` to the connection, taking exclusive access for the
    /// duration of this one call. On success every byte of `buf` is queued,
    /// contiguously and in order; the only failure is a write after this
    /// endpoint closed its write side.
    pub fn write(&self, buf: &[u8]) -> (r: Result<usize, IoError>)
        requires
            self.wf(),
        ensures
            r matches Ok(n) ==> n == buf@.len(),
            r matches Err(e) ==> e == IoError::Closed,
    {
        let (mut st, wh) = (*self.state).acquire_write();
        let out = st.send(self.side, buf);
        wh.release_write(st);
        out
    }

    /// Read up to `max` bytes, taking exclusive access for the duration of
    /// this one call. A read with no room returns the empty success at
    /// once. With room, an empty result is the end-of-stream signal,
    /// returned once the peer has closed its write side and its bytes are
    /// drained; it is never an error. `NotReady` reports an empty queue
    /// whose peer may still send — the blocking read this models would not
    /// have returned.
    pub fn read(&self, max: usize) -> (r: Result<Vec<u8>, IoError>)
        requires
            self.wf(),
        ensures
            r matches Ok(bytes) ==> bytes@.len() <= max,
            r matches Err(e) ==> e == IoError::NotReady,
            max == 0 ==> (r matches Ok(bytes) && bytes@.len() == 0),
    {
        let (mut st, wh) = (*self.state).acquire_write();
        let out = st.recv(self.side, max);
        wh.release_write(st);
        out
    }

    /// Push buffered output to the transport. The connection model queues
    /// every written byte at once, so there is nothing left to push and the
    /// shared state is untouched.
    pub fn flush(&self) -> (r: Result<(), IoError>)
        requires
            self.wf(),
        ensures
            r is Ok,
    {
        Ok(())
    }

    /// Close this endpoint's write side: later writes from any handle of
    /// this endpoint fail, and the peer reads end-of-stream once the queue
    /// towards it is drained.
    pub fn close_write(&self)
        requires
            self.wf(),
    {
        let (mut st, wh) = (*self.state).acquire_write();
        st.close_write(self.side);
        wh.release_write(st);
    }
}

/// Establish a fresh connection with the given identity and hand back its
/// two endpoint handles, each ready for I/O against the other.
pub fn socket_pair(conn: u64) -> (r: (Socket, Socket))
    ensures
        r.0.wf(),
        r.1.wf(),
        r.0.conn() == conn,
        r.1.conn() == conn,
        r.0.is_peer_of(r.1),
{
    let st = DuplexState::establish(conn);
    let lock = RwLock::<DuplexState, ConnPred>::new(st, Ghost(ConnPred { conn }));
    let arc = Arc::new(lock);
    let a = Socket { conn, side: true, state: share_arc(&arc) };
    let b = Socket { conn, side: false, state: arc };
    (a, b)
}

/// An established encrypted session over one endpoint socket. The handshake
/// is done before this type sees the session; encryption and decryption
/// happen below the byte view this model keeps, so the session's observable
/// state is the socket it runs over.
pub struct TlsSession {
    sock: Socket,
}

impl TlsSession {
    /// The session is only as sound as its transport handle.
    pub closed spec fn wf(self) -> bool {
        self.sock.wf()
    }

    /// The identity of the connection the session runs over.
    pub closed spec fn conn(self) -> u64 {
        self.sock.conn()
    }

    /// The endpoint handle beneath the session.
    pub closed spec fn socket(self) -> Socket {
        self.sock
    }

    /// Take ownership of the endpoint a completed handshake ran over.
    pub fn establish(sock: Socket) -> (s: TlsSession)
        requires
            sock.wf(),
        ensures
            s.wf(),
            s.conn() == sock.conn(),
            s.socket() == sock,
    {
        TlsSession { sock }
    }
}

/// The lock invariant of a shared session: the one session the wrapper was
/// built around is the only value the lock ever stores. A session does not
/// change at this layer — its moving state sits behind the connection lock
/// beneath it — so sharing stores exactly what was wrapped.
pub struct SessPred {
    pub sess: TlsSession,
}

impl RwLockPredicate<TlsSession> for SessPred {
    open spec fn inv(self, s: TlsSession) -> bool {
        s == self.sess
    }
}

/// A shared-ownership handle to one encrypted session. Any number of owners
/// may hold handles; the session lives as long as the longest-lived one.
/// Every operation takes exclusive access to the session for the duration of
/// that single call — never across calls — so concurrent calls through
/// different handles serialize.
pub struct WrappedTlsStream {
    conn: u64,
    sess: Ghost<TlsSession>,
    session: Arc<RwLock<TlsSession, SessPred>>,
}

impl WrappedTlsStream {
    /// The identity of the connection under the shared session.
    pub closed spec fn conn(self) -> u64 {
        self.conn
    }

    /// The session this handle shares: the one it was built around.
    pub closed spec fn session(self) -> TlsSession {
        self.sess@
    }

    /// The handle is tied to its shared session: the lock stores exactly
    /// the session the handle was built around, which is well-formed and
    /// runs over this handle's connection.
    pub closed spec fn wf(self) -> bool {
        &&& (*self.session).pred() == (SessPred { sess: self.sess@ })
        &&& self.sess@.wf()
        &&& self.sess@.conn() == self.conn
    }

    /// Wrap an established session in shared, lock-protected storage: the
    /// stored session is exactly the one handed in. No I/O happens and no
    /// failure exists.
    pub fn new(stream: TlsSession) -> (r: WrappedTlsStream)
        requires
            stream.wf(),
        ensures
            r.wf(),
            r.conn() == stream.conn(),
            r.session() == stream,
    {
        let ghost sess = stream;
        let conn = stream.sock.conn_id();
        let lock = RwLock::<TlsSession, SessPred>::new(stream, Ghost(SessPred { sess }));
        WrappedTlsStream { conn, sess: Ghost(sess), session: Arc::new(lock) }
    }

    /// A new handle to the very same session — the clone equals this handle
    /// as a value: shared ownership grows by one, no session state is
    /// duplicated, and no failure exists.
    pub fn clone_handle(&self) -> (r: WrappedTlsStream)
        requires
            self.wf(),
        ensures
            r == *self,
            r.wf(),
            r.conn() == self.conn(),
    {
        WrappedTlsStream { conn: self.conn, sess: self.sess, session: share_arc(&self.session) }
    }

    /// A duplicate handle to the raw socket beneath this very session. The
    /// session keeps its own socket; the duplicate is independently valid
    /// for connection-level work and refers to the same connection.
    pub fn as_tcp(&self) -> (r: Result<Socket, IoError>)
        requires
            self.wf(),
        ensures
            r is Ok,
            r matches Ok(s) ==> s == self.session().socket(),
            r matches Ok(s) ==> s.wf() && s.conn() == self.conn(),
    {
        let (st, wh) = (*self.session).acquire_write();
        let dup = st.sock.try_clone();
        wh.release_write(st);
        dup
    }

    /// A decrypting read: exclusive access to the session for this one
    /// call. Same result contract as the socket read under it.
    pub fn read(&self, max: usize) -> (r: Result<Vec<u8>, IoError>)
        requires
            self.wf(),
        ensures
            r matches Ok(bytes) ==> bytes@.len() <= max,
            r matches Err(e) ==> e == IoError::NotReady,
            max == 0 ==> (r matches Ok(bytes) && bytes@.len() == 0),
    {
        let (st, wh) = (*self.session).acquire_write();
        let out = st.sock.read(max);
        wh.release_write(st);
        out
    }

    /// An encrypting write: exclusive access to the session for this one
    /// call. Same result contract as the socket write under it.
    pub fn write(&self, buf: &[u8]) -> (r: Result<usize, IoError>)
        requires
            self.wf(),
        ensures
            r matches Ok(n) ==> n == buf@.len(),
            r matches Err(e) ==> e == IoError::Closed,
    {
        let (st, wh) = (*self.session).acquire_write();
        let out = st.sock.write(buf);
        wh.release_write(st);
        out
    }

    /// Push any buffered encrypted output down to the transport, under the
    /// session's lock for this one call.
    pub fn flush(&self) -> (r: Result<(), IoError>)
        requires
            self.wf(),
        ensures
            r is Ok,
    {
        let (st, wh) = (*self.session).acquire_write();
        let out = st.sock.flush();
        wh.release_write(st);
        out
    }

    /// The connection identity, as [`Socket::conn_id`].
    pub fn conn_id(&self) -> (r: u64)
        ensures
            r == self.conn(),
    {
        self.conn
    }
}

/// A bidirectional byte stream that may or may not be encrypted: a closed
/// variant type, its tag fixed at construction, every operation dispatching
/// exhaustively on it.
pub enum Stream {
    /// Exclusive ownership of one plain endpoint handle.
    Tcp(Socket),
    /// Shared ownership of one encrypted session.
    Tls(WrappedTlsStream),
}

impl Stream {
    /// Both variants are sound exactly when what they hold is.
    pub open spec fn wf(self) -> bool {
        match self {
            Stream::Tcp(s) => s.wf(),
            Stream::Tls(t) => t.wf(),
        }
    }

    /// The identity of the underlying connection, whichever variant holds it.
    pub open spec fn conn(self) -> u64 {
        match self {
            Stream::Tcp(s) => s.conn(),
            Stream::Tls(t) => t.conn(),
        }
    }

    /// The socket a raw extraction duplicates: the plain variant's own
    /// handle, or the one beneath the encrypted variant's session.
    pub open spec fn raw_socket(self) -> Socket {
        match self {
            Stream::Tcp(s) => s,
            Stream::Tls(t) => t.session().socket(),
        }
    }

    /// A new stream equal to this one as a value — the same variant over
    /// the very same shared state: the plain case duplicates the endpoint
    /// handle, the encrypted case adds a handle to the shared session.
    /// Fallible at the interface for uniformity; no failure exists in
    /// either case here.
    pub fn try_clone(&self) -> (r: Result<Stream, IoError>)
        requires
            self.wf(),
        ensures
            r is Ok,
            r matches Ok(s) ==> s == *self,
            r matches Ok(s) ==> s.wf() && s.conn() == self.conn() && ((s is Tcp) <==> (
            self is Tcp)),
    {
        match self {
            Stream::Tcp(s) => match s.try_clone() {
                Ok(d) => Ok(Stream::Tcp(d)),
                Err(e) => Err(e),
            },
            Stream::Tls(t) => Ok(Stream::Tls(t.clone_handle())),
        }
    }

    /// A duplicate handle to the raw socket beneath this very stream,
    /// whether or not encryption is active: the narrow escape hatch for
    /// connection-level work. The stream keeps its own handle; the caller
    /// owns the duplicate.
    pub fn as_tcp(&self) -> (r: Result<Socket, IoError>)
        requires
            self.wf(),
        ensures
            r is Ok,
            r matches Ok(s) ==> s == self.raw_socket(),
            r matches Ok(s) ==> s.wf() && s.conn() == self.conn(),
    {
        match self {
            Stream::Tcp(s) => s.try_clone(),
            Stream::Tls(t) => t.as_tcp(),
        }
    }

    /// Read up to `max` bytes through the active variant. A read with no
    /// room returns the empty success at once; with room, an empty result
    /// is the end-of-stream signal, never an error.
    pub fn read(&self, max: usize) -> (r: Result<Vec<u8>, IoError>)
        requires
            self.wf(),
        ensures
            r matches Ok(bytes) ==> bytes@.len() <= max,
            r matches Err(e) ==> e == IoError::NotReady,
            max == 0 ==> (r matches Ok(bytes) && bytes@.len() == 0),
    {
        match self {
            Stream::Tcp(s) => s.read(max),
            Stream::Tls(t) => t.read(max),
        }
    }

    /// Write `buf` through the active variant: on success every byte of
    /// `buf`, contiguous and in order.
    pub fn write(&self, buf: &[u8]) -> (r: Result<usize, IoError>)
        requires
            self.wf(),
        ensures
            r matches Ok(n) ==> n == buf@.len(),
            r matches Err(e) ==> e == IoError::Closed,
    {
        match self {
            Stream::Tcp(s) => s.write(buf),
            Stream::Tls(t) => t.write(buf),
        }
    }

    /// Flush through the active variant.
    pub fn flush(&self) -> (r: Result<(), IoError>)
        requires
            self.wf(),
        ensures
            r is Ok,
    {
        match self {
            Stream::Tcp(s) => s.flush(),
            Stream::Tls(t) => t.flush(),
        }
    }

    /// The connection identity, as [`Socket::conn_id`].
    pub fn conn_id(&self) -> (r: u64)
        ensures
            r == self.conn(),
    {
        match self {
            Stream::Tcp(s) => s.conn_id(),
            Stream::Tls(t) => t.conn_id(),
        }
    }
}


/// A stream, a clone of it, and the raw-socket duplicates extracted from
/// each all refer to one and the same underlying connection: given what
/// [`Stream::try_clone`] ensures of the clone and what [`Stream::as_tcp`]
/// ensures of each extraction, the two extracted handles are the same
/// handle value, over the same connection.
pub proof fn lemma_clone_and_raw_socket_agree(s: Stream, c: Stream, r1: Socket, r2: Socket)
    requires
        c == s,
        r1 == s.raw_socket(),
        r2 == c.raw_socket(),
    ensures
        r1 == r2,
        r1.conn() == r2.conn(),
{
}

} // verus!

