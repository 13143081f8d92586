use transport_stream::conn::{DuplexState, IoError};

#[test]
fn establish_starts_empty_and_open() {
    let s = DuplexState::establish(7);
    assert_eq!(s.conn, 7);
    assert_eq!(s.a_to_b, Vec::<u8>::new());
    assert_eq!(s.b_to_a, Vec::<u8>::new());
    assert!(!s.a_closed);
    assert!(!s.b_closed);
}

#[test]
fn send_queues_every_byte_in_order() {
    let mut s = DuplexState::establish(1);
    let n = s.send(true, &[10, 20, 30]).unwrap();
    assert_eq!(n, 3);
    assert_eq!(s.a_to_b, vec![10, 20, 30]);
    let n2 = s.send(true, &[40]).unwrap();
    assert_eq!(n2, 1);
    assert_eq!(s.a_to_b, vec![10, 20, 30, 40]);
    assert_eq!(s.b_to_a, Vec::<u8>::new());
}

#[test]
fn send_after_close_write_fails() {
    let mut s = DuplexState::establish(2);
    s.close_write(true);
    let r = s.send(true, &[1]);
    assert_eq!(r, Err(IoError::Closed));
    assert_eq!(s.a_to_b, Vec::<u8>::new());
    let n = s.send(false, &[9]).unwrap();
    assert_eq!(n, 1);
}

#[test]
fn recv_takes_front_and_leaves_rest() {
    let mut s = DuplexState::establish(3);
    s.send(true, &[1, 2, 3, 4, 5]).unwrap();
    let first = s.recv(false, 2).unwrap();
    assert_eq!(first, vec![1, 2]);
    assert_eq!(s.a_to_b, vec![3, 4, 5]);
    let second = s.recv(false, 10).unwrap();
    assert_eq!(second, vec![3, 4, 5]);
    assert_eq!(s.a_to_b, Vec::<u8>::new());
}

#[test]
fn recv_on_open_empty_queue_is_not_ready() {
    let mut s = DuplexState::establish(4);
    let r = s.recv(false, 8);
    assert_eq!(r, Err(IoError::NotReady));
}

#[test]
fn recv_after_peer_close_is_end_of_stream_not_error() {
    let mut s = DuplexState::establish(5);
    s.send(true, &[9]).unwrap();
    s.close_write(true);
    let last = s.recv(false, 8).unwrap();
    assert_eq!(last, vec![9]);
    let eof = s.recv(false, 8).unwrap();
    assert_eq!(eof, Vec::<u8>::new());
    let eof_again = s.recv(false, 8).unwrap();
    assert_eq!(eof_again, Vec::<u8>::new());
}

#[test]
fn zero_room_recv_is_the_empty_success() {
    let mut s = DuplexState::establish(6);
    let r = s.recv(false, 0).unwrap();
    assert_eq!(r, Vec::<u8>::new());
    s.send(true, &[1]).unwrap();
    assert_eq!(s.recv(false, 0).unwrap(), Vec::<u8>::new());
    assert_eq!(s.a_to_b, vec![1]);
}
