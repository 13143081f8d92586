use transport_stream::conn::IoError;
use transport_stream::stream::{socket_pair, Socket, Stream, TlsSession, WrappedTlsStream};

fn read_all(peer: &Socket, want: usize) -> Vec<u8> {
    let mut got: Vec<u8> = Vec::new();
    while got.len() < want {
        let chunk = peer.read(7).unwrap();
        assert!(!chunk.is_empty(), "ran out of bytes early");
        got.extend(chunk);
    }
    got
}

#[test]
fn plain_round_trip_keeps_order_across_clones() {
    let (a, b) = socket_pair(1);
    let stream = Stream::Tcp(a);
    let n = stream.write(&[0x48, 0x49]).unwrap();
    assert_eq!(n, 2);
    assert_eq!(b.read(16).unwrap(), vec![0x48, 0x49]);
    let clone = stream.try_clone().unwrap();
    assert_eq!(clone.write(&[0x21]).unwrap(), 1);
    assert_eq!(b.read(16).unwrap(), vec![0x21]);
}

#[test]
fn shared_session_loses_no_bytes_across_handles() {
    let (a, b) = socket_pair(2);
    let wrapped = WrappedTlsStream::new(TlsSession::establish(a));
    let h1 = wrapped.clone_handle();
    let h2 = wrapped.clone_handle();
    let handles = [&wrapped, &h1, &h2];
    for i in 0..100u8 {
        let n = handles[(i as usize) % 3].write(&[i]).unwrap();
        assert_eq!(n, 1);
    }
    let got = read_all(&b, 100);
    let want: Vec<u8> = (0..100u8).collect();
    assert_eq!(got, want);
}

#[test]
fn clone_and_raw_socket_agree_on_connection() {
    let (a, _b) = socket_pair(3);
    let stream = Stream::Tcp(a);
    let clone = stream.try_clone().unwrap();
    let raw1 = stream.as_tcp().unwrap();
    let raw2 = clone.as_tcp().unwrap();
    assert_eq!(raw1.conn_id(), 3);
    assert_eq!(raw1.conn_id(), raw2.conn_id());

    let (c, _d) = socket_pair(4);
    let enc = Stream::Tls(WrappedTlsStream::new(TlsSession::establish(c)));
    let enc_clone = enc.try_clone().unwrap();
    let raw3 = enc.as_tcp().unwrap();
    let raw4 = enc_clone.as_tcp().unwrap();
    assert_eq!(raw3.conn_id(), 4);
    assert_eq!(raw3.conn_id(), raw4.conn_id());
    assert_eq!(enc.conn_id(), enc_clone.conn_id());
}

#[test]
fn read_after_peer_close_signals_end_of_stream() {
    let (a, b) = socket_pair(5);
    let stream = Stream::Tcp(a);
    assert_eq!(stream.read(8), Err(IoError::NotReady));
    b.write(&[7]).unwrap();
    b.close_write();
    assert_eq!(stream.read(8).unwrap(), vec![7]);
    assert_eq!(stream.read(8).unwrap(), Vec::<u8>::new());
    assert_eq!(stream.read(8).unwrap(), Vec::<u8>::new());
}

#[test]
fn dropping_other_clones_keeps_a_handle_usable() {
    let (a, b) = socket_pair(6);
    let wrapped = WrappedTlsStream::new(TlsSession::establish(a));
    {
        let extra1 = wrapped.clone_handle();
        let extra2 = extra1.clone_handle();
        extra1.write(&[1]).unwrap();
        extra2.write(&[2]).unwrap();
    }
    assert_eq!(wrapped.write(&[3]).unwrap(), 1);
    assert_eq!(b.read(16).unwrap(), vec![1, 2, 3]);
    b.write(&[4]).unwrap();
    assert_eq!(wrapped.read(16).unwrap(), vec![4]);
}

#[test]
fn write_after_own_close_fails_with_io_error() {
    let (a, _b) = socket_pair(8);
    a.close_write();
    let dup = a.try_clone().unwrap();
    assert_eq!(a.write(&[1]), Err(IoError::Closed));
    assert_eq!(dup.write(&[1]), Err(IoError::Closed));
}

#[test]
fn partial_reads_preserve_order() {
    let (a, b) = socket_pair(9);
    a.write(&[1, 2, 3, 4, 5]).unwrap();
    assert_eq!(b.read(2).unwrap(), vec![1, 2]);
    a.write(&[6]).unwrap();
    assert_eq!(b.read(2).unwrap(), vec![3, 4]);
    assert_eq!(b.read(16).unwrap(), vec![5, 6]);
}

#[test]
fn flush_succeeds_and_disturbs_nothing() {
    let (a, b) = socket_pair(10);
    let plain = Stream::Tcp(a);
    plain.write(&[11]).unwrap();
    plain.flush().unwrap();
    assert_eq!(b.read(16).unwrap(), vec![11]);

    let (c, d) = socket_pair(11);
    let enc = Stream::Tls(WrappedTlsStream::new(TlsSession::establish(c)));
    enc.write(&[12]).unwrap();
    enc.flush().unwrap();
    assert_eq!(d.read(16).unwrap(), vec![12]);
}

#[test]
fn tls_stream_reads_what_the_peer_sent() {
    let (a, b) = socket_pair(12);
    let wrapped = WrappedTlsStream::new(TlsSession::establish(a));
    b.write(&[42, 43]).unwrap();
    assert_eq!(wrapped.read(1).unwrap(), vec![42]);
    assert_eq!(wrapped.read(16).unwrap(), vec![43]);
    assert_eq!(wrapped.read(16), Err(IoError::NotReady));
    b.close_write();
    assert_eq!(wrapped.read(16).unwrap(), Vec::<u8>::new());
}

#[test]
fn variant_is_fixed_by_try_clone() {
    let (a, _b) = socket_pair(13);
    let plain = Stream::Tcp(a);
    assert!(matches!(plain.try_clone().unwrap(), Stream::Tcp(_)));

    let (c, _d) = socket_pair(14);
    let enc = Stream::Tls(WrappedTlsStream::new(TlsSession::establish(c)));
    assert!(matches!(enc.try_clone().unwrap(), Stream::Tls(_)));
}

#[test]
fn wrap_keeps_the_connection_identity() {
    let (a, _b) = socket_pair(15);
    assert_eq!(a.conn_id(), 15);
    let dup = a.try_clone().unwrap();
    let wrapped = WrappedTlsStream::new(TlsSession::establish(a));
    assert_eq!(wrapped.conn_id(), 15);
    assert_eq!(wrapped.as_tcp().unwrap().conn_id(), dup.conn_id());
}

#[test]
fn empty_write_is_accepted_and_invisible() {
    let (a, b) = socket_pair(16);
    assert_eq!(a.write(&[]).unwrap(), 0);
    assert_eq!(b.read(16), Err(IoError::NotReady));
    a.write(&[1]).unwrap();
    assert_eq!(a.write(&[]).unwrap(), 0);
    assert_eq!(b.read(16).unwrap(), vec![1]);
}

#[test]
fn zero_budget_read_takes_nothing() {
    let (a, b) = socket_pair(17);
    assert_eq!(b.read(0).unwrap(), Vec::<u8>::new());
    a.write(&[9, 8]).unwrap();
    assert_eq!(b.read(0).unwrap(), Vec::<u8>::new());
    assert_eq!(b.read(16).unwrap(), vec![9, 8]);
}

#[test]
fn extracted_socket_shares_the_session_connection() {
    let (a, b) = socket_pair(18);
    let wrapped = WrappedTlsStream::new(TlsSession::establish(a));
    let raw = wrapped.as_tcp().unwrap();
    raw.write(&[1]).unwrap();
    wrapped.write(&[2]).unwrap();
    let raw_again = wrapped.clone_handle().as_tcp().unwrap();
    raw_again.write(&[3]).unwrap();
    assert_eq!(b.read(16).unwrap(), vec![1, 2, 3]);
}

