use bp3d_net::udp::client::Builder as ClientBuilder;
use bp3d_net::udp::server::Builder as ServerBuilder;
use bp3d_net::util::barrier::broadcast::{check_open, releases_awaited};
use bp3d_net::util::barrier::Error;

#[test]
fn udp_client_builder() {
    let (handler, size, buffer) = ClientBuilder::new('h', [1u8, 2, 3]).into_parts();
    assert_eq!(handler, 'h');
    assert_eq!(size, 4);
    assert_eq!(buffer, [1, 2, 3]);
    let (_, size, buffer) = ClientBuilder::new((), [0u8; 2]).event_queue_size(9).into_parts();
    assert_eq!(size, 9);
    assert_eq!(buffer, [0, 0]);
}

#[test]
fn udp_server_builder() {
    let (handler, size, buffer) = ServerBuilder::new(5i32, [7u8; 4]).into_parts();
    assert_eq!(handler, 5);
    assert_eq!(size, 4);
    assert_eq!(buffer, [7, 7, 7, 7]);
    let (_, size, _) = ServerBuilder::new((), [0u8; 1]).event_queue_size(1).into_parts();
    assert_eq!(size, 1);
}

#[test]
fn barrier_send_gate() {
    assert_eq!(check_open(true), Err(Error::Closed));
    assert_eq!(check_open(false), Ok(()));
    assert_eq!(releases_awaited(Some(3)), Ok(3));
    assert_eq!(releases_awaited(Some(0)), Ok(0));
    assert_eq!(releases_awaited(None), Err(Error::BrokenPipe));
}
