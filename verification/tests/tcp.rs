use bp3d_net::tcp::buffer::Bytes;
use bp3d_net::tcp::client::Builder as ClientBuilder;
use bp3d_net::tcp::server::client::{is_recipient, ALL_CLIENTS};
use bp3d_net::tcp::server::server::{Admission, Builder as ServerBuilder, Clients};
use bp3d_net::tcp::util::{check_send, on_read, on_ready, LoopStep, ReadyEvent, SendError};

#[test]
fn bytes_slice() {
    let b = Bytes::new([1u8, 2, 3, 4], 2);
    assert_eq!(b.as_slice(), &[1u8, 2]);
    let full = Bytes::new([9u8; 3], 3);
    assert_eq!(full.as_slice(), &[9u8, 9, 9]);
    let none = Bytes::new([9u8; 3], 0);
    assert!(none.as_slice().is_empty());
}

#[test]
fn client_builder() {
    let (factory, size) = ClientBuilder::new("factory").into_parts();
    assert_eq!(factory, "factory");
    assert_eq!(size, 4);
    let (_, size) = ClientBuilder::new(()).event_queue_size(16).into_parts();
    assert_eq!(size, 16);
}

#[test]
fn server_builder() {
    let (factory, max, size) = ServerBuilder::new(7u32).into_parts();
    assert_eq!((factory, max, size), (7, 4, 8));
    let (_, max, size) = ServerBuilder::new(()).max_clients(5).into_parts();
    assert_eq!((max, size), (5, 10));
    let (_, max, size) = ServerBuilder::new(()).max_clients(5).event_queue_size(3).into_parts();
    assert_eq!((max, size), (5, 3));
    let (_, max, size) = ServerBuilder::new(()).event_queue_size(3).max_clients(2).into_parts();
    assert_eq!((max, size), (2, 4));
}

#[test]
fn admission_respects_limit() {
    let mut clients = Clients::new(2);
    assert_eq!(clients.max_clients(), 2);
    assert_eq!(clients.on_accept(), Admission::Admit(1));
    assert_eq!(clients.on_accept(), Admission::Admit(2));
    assert_eq!(clients.cur_clients(), 2);
    assert_eq!(clients.on_accept(), Admission::Reject);
    assert_eq!(clients.cur_clients(), 2);
    clients.on_disconnect();
    assert_eq!(clients.cur_clients(), 1);
    assert_eq!(clients.on_accept(), Admission::Admit(4));
    clients.on_disconnect();
    clients.on_disconnect();
    assert_eq!(clients.cur_clients(), 0);
}

#[test]
fn admission_with_no_room() {
    let mut clients = Clients::new(0);
    assert_eq!(clients.on_accept(), Admission::Reject);
    assert_eq!(clients.cur_clients(), 0);
}

#[test]
fn recipients() {
    assert_eq!(ALL_CLIENTS, 0);
    assert!(is_recipient(0, 1));
    assert!(is_recipient(0, 7));
    assert!(is_recipient(3, 3));
    assert!(!is_recipient(3, 4));
}

#[test]
fn ready_events() {
    assert_eq!(on_ready(ReadyEvent::ConnectionLoss), LoopStep::Stop);
    assert_eq!(on_ready(ReadyEvent::Idle), LoopStep::Continue);
    assert_eq!(on_ready(ReadyEvent::Submitted), LoopStep::Continue);
    assert_eq!(on_ready(ReadyEvent::Read(12)), LoopStep::Forward(12));
}

#[test]
fn send_gate() {
    assert_eq!(check_send(true), Err(SendError::IsExiting));
    assert_eq!(check_send(false), Ok(()));
}

#[test]
fn read_events() {
    assert_eq!(on_read(0), ReadyEvent::ConnectionLoss);
    assert_eq!(on_read(5), ReadyEvent::Read(5));
    assert_eq!(on_ready(on_read(0)), LoopStep::Stop);
}
