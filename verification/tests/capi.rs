use bp3d_net::capi::{after_receive, handle_is_valid, receive_again, PeerCount, PeerStep};

#[test]
fn peer_steps() {
    assert_eq!(after_receive(0), PeerStep::Disconnected);
    assert_eq!(after_receive(1), PeerStep::Deliver);
    assert_eq!(after_receive(256), PeerStep::Deliver);
    assert!(receive_again(false, false));
    assert!(!receive_again(true, false));
    assert!(!receive_again(false, true));
    assert!(!receive_again(true, true));
}

#[test]
fn handles() {
    assert!(handle_is_valid(false, false));
    assert!(!handle_is_valid(true, false));
    assert!(!handle_is_valid(false, true));
}

#[test]
fn peer_count() {
    let mut count = PeerCount::new();
    assert_eq!(count.clients(), 0);
    assert!(!count.shutdown_waits());
    count.connect();
    count.connect();
    assert_eq!(count.clients(), 2);
    assert!(count.shutdown_waits());
    count.disconnect();
    assert_eq!(count.clients(), 1);
    count.disconnect();
    assert!(!count.shutdown_waits());
}
