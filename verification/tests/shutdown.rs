use ledger_feed::shutdown::{Coordinator, RecvPoll};

#[test]
fn broadcast_is_idempotent() {
    let mut once = Coordinator::create();
    once.broadcast();

    let mut thrice = Coordinator::create();
    thrice.broadcast();
    thrice.broadcast();
    thrice.broadcast();

    assert_eq!(once, thrice);
    assert!(once.wait_ready());
    assert!(thrice.wait_ready());
}

#[test]
fn wait_suspends_before_broadcast() {
    let c = Coordinator::create();
    assert!(!c.wait_ready());
}

#[test]
fn late_listener_sees_immediate_fire() {
    let mut c = Coordinator::create();
    c.broadcast();
    assert!(c.wait_ready());
    assert!(c.wait_ready());
}

#[test]
fn recv_yields_each_request() {
    let mut c = Coordinator::create();
    c.request_shutdown();
    c.request_shutdown();
    assert_eq!(c.recv_poll(), RecvPoll::Request);
    assert_eq!(c.recv_poll(), RecvPoll::Request);
    assert_eq!(c.recv_poll(), RecvPoll::Pending);
}

#[test]
fn report_channel_closes_only_when_listener_free() {
    let mut c = Coordinator::create();
    c.clone_listener();

    // Two listeners alive: the receiver would suspend, not close.
    assert_eq!(c.recv_poll(), RecvPoll::Pending);

    c.drop_listener();
    assert_eq!(c.recv_poll(), RecvPoll::Pending);

    // A request left behind by the last listener is still yielded first.
    c.request_shutdown();
    c.drop_listener();
    assert_eq!(c.recv_poll(), RecvPoll::Request);

    // No listener, no pending request: terminal closure.
    assert_eq!(c.recv_poll(), RecvPoll::Closed);
    assert_eq!(c.recv_poll(), RecvPoll::Closed);
}
