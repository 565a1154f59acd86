use bp3d_net::ipc::protocol::{
    classify, is_client_hello, is_server_hello, DatagramKind, Link, LinkError, ACK, END,
    INIT_CLIENT_CONNECT, INIT_SERVER_CONNECT, MAX_FAILURES,
};
use bp3d_net::ipc::util::Message;

#[test]
fn util_basic() {
    let mut msg = Message::new(1024);
    msg.set_size(0);
    assert_eq!(msg.write(b"Hello"), 5);
    assert_eq!(msg.write(b", World"), 7);
    assert_eq!(msg.as_slice(), b"Hello, World");
}

#[test]
fn new_message_is_full_of_zeros() {
    let msg = Message::new(4);
    assert_eq!(msg.max_size(), 4);
    assert_eq!(msg.len(), 4);
    assert!(!msg.is_empty());
    assert_eq!(msg.as_slice(), &[0u8, 0, 0, 0]);
}

#[test]
fn empty_message() {
    let mut msg = Message::new(0);
    assert_eq!(msg.max_size(), 0);
    assert!(msg.is_empty());
    assert_eq!(msg.write(b"abc"), 0);
    assert!(msg.is_empty());
    assert_eq!(msg.frame(), &[0u8]);
}

#[test]
fn set_size_zeroes_unused_slots() {
    let mut msg = Message::new(8);
    msg.set_size(0);
    msg.write(b"abcdef");
    msg.set_size(2);
    assert_eq!(msg.as_slice(), b"ab");
    msg.set_size(5);
    assert_eq!(msg.as_slice(), &[b'a', b'b', 0, 0, 0]);
    msg.set_size(8);
    assert_eq!(msg.as_slice(), &[b'a', b'b', 0, 0, 0, 0, 0, 0]);
}

#[test]
fn write_stops_at_max_size() {
    let mut msg = Message::new(4);
    msg.set_size(1);
    assert_eq!(msg.write(b"xyzw"), 3);
    assert_eq!(msg.as_slice(), &[0u8, b'x', b'y', b'z']);
    assert_eq!(msg.write(b"more"), 0);
    assert_eq!(msg.len(), 4);
}

#[test]
fn copy_from_slice_replaces_content() {
    let mut msg = Message::new(256);
    msg.set_size(11);
    msg.copy_from_slice("hello world".as_bytes());
    assert_eq!(msg.len(), 11);
    assert_eq!(msg.as_slice(), b"hello world");
}

#[test]
fn frame_adds_zero_closing_byte() {
    let mut msg = Message::new(16);
    msg.set_size(0);
    msg.write(b"hi");
    assert_eq!(msg.frame(), &[b'h', b'i', 0]);
    assert_eq!(classify(msg.frame()), DatagramKind::Data);
}

#[test]
fn classify_datagrams() {
    assert_eq!(classify(&[END]), DatagramKind::Close);
    assert_eq!(classify(&[ACK]), DatagramKind::KeepAlive);
    assert_eq!(classify(&[]), DatagramKind::Eof);
    assert_eq!(classify(&[1, 2, 3]), DatagramKind::Data);
    assert_eq!(classify(&[1, 2, ACK]), DatagramKind::KeepAlive);
    assert_eq!(classify(&[END, 0]), DatagramKind::Data);
    assert_eq!(classify(&[0]), DatagramKind::Data);
}

#[test]
fn hellos() {
    assert!(is_client_hello(&[INIT_CLIENT_CONNECT]));
    assert!(!is_client_hello(&[INIT_SERVER_CONNECT]));
    assert!(!is_client_hello(&[]));
    assert!(!is_client_hello(&[INIT_CLIENT_CONNECT, 0]));
    assert!(is_server_hello(&[0xCD]));
    assert!(!is_server_hello(&[0xAB]));
    assert_eq!(INIT_CLIENT_CONNECT, 0xAB);
    assert_eq!(INIT_SERVER_CONNECT, 0xCD);
    assert_eq!(ACK, 0xFF);
    assert_eq!(END, 0xFE);
}

#[test]
fn message_round_trip() {
    let mut sent = Message::new(256);
    sent.set_size(11);
    sent.copy_from_slice("hello world".as_bytes());
    let mut received = Message::new(256);
    let mut link = Link::new();
    assert_eq!(link.on_datagram(&mut received, sent.frame()), Some(Ok(())));
    assert_eq!(received.len(), 11);
    assert_eq!(received.as_slice(), b"hello world");
    assert!(!link.is_dead());
}

#[test]
fn empty_message_round_trip() {
    let mut sent = Message::new(8);
    sent.set_size(0);
    let mut received = Message::new(8);
    let mut link = Link::new();
    assert_eq!(link.on_datagram(&mut received, sent.frame()), Some(Ok(())));
    assert!(received.is_empty());
    assert!(!link.is_dead());
}

#[test]
fn close_datagram_kills_link() {
    let mut received = Message::new(8);
    let mut link = Link::new();
    assert_eq!(link.on_datagram(&mut received, &[END]), Some(Ok(())));
    assert!(received.is_empty());
    assert!(link.is_dead());
    assert_eq!(link.check_dead(), Err(LinkError::BrokenPipe));
    assert!(!link.keep_alive());
}

#[test]
fn keep_alive_datagram_is_skipped() {
    let mut received = Message::new(8);
    received.set_size(3);
    received.copy_from_slice(b"old");
    let mut link = Link::new();
    assert_eq!(link.on_timeout(), Ok(()));
    assert_eq!(link.on_datagram(&mut received, &[ACK]), None);
    assert_eq!(received.as_slice(), b"old");
    assert!(!link.is_dead());
}

#[test]
fn eof_datagram_fails() {
    let mut received = Message::new(8);
    let mut link = Link::new();
    assert_eq!(link.on_datagram(&mut received, &[]), Some(Err(LinkError::UnexpectedEof)));
    assert!(link.is_dead());
    assert_eq!(received.len(), 8);
}

#[test]
fn silence_fails_at_third_interval() {
    let mut link = Link::new();
    assert_eq!(MAX_FAILURES, 2);
    assert_eq!(link.check_dead(), Ok(()));
    assert_eq!(link.on_timeout(), Ok(()));
    assert!(link.keep_alive());
    assert_eq!(link.on_timeout(), Ok(()));
    assert!(link.is_dead());
    assert_eq!(link.on_timeout(), Err(LinkError::BrokenPipe));
}

#[test]
fn datagram_resets_silence() {
    let mut link = Link::new();
    let mut msg = Message::new(4);
    assert_eq!(link.on_timeout(), Ok(()));
    assert_eq!(link.on_timeout(), Ok(()));
    assert_eq!(link.on_datagram(&mut msg, &[ACK]), None);
    assert!(!link.is_dead());
    assert_eq!(link.on_timeout(), Ok(()));
    link.on_receive_error();
    assert_eq!(link.on_timeout(), Ok(()));
}

#[test]
fn sent_counts() {
    let mut link = Link::new();
    assert_eq!(link.on_sent(12), Ok(11));
    assert!(!link.is_dead());
    assert_eq!(link.on_sent(0), Err(LinkError::UnexpectedEof));
    assert!(link.is_dead());
    link.set_dead();
    assert_eq!(link.check_dead(), Err(LinkError::BrokenPipe));
}
