use std::sync::Arc;

use windows_tty::event::{with_key, Event, PollMode};
use windows_tty::registration::{PipeEnd, Registration};

fn event(key: usize, readable: bool, writable: bool) -> Event {
    Event { key, readable, writable, interrupt: false, priority: false }
}

#[test]
fn another_key_leaves_the_rest_alone() {
    let before = Event { key: 9, readable: true, writable: false, interrupt: true, priority: true };
    let after = with_key(before, 2);
    assert_eq!(
        after,
        Event { key: 2, readable: true, writable: false, interrupt: true, priority: true }
    );
}

#[test]
fn nobody_is_told_before_they_ask() {
    let mut registration: Registration<u8> = Registration::new(PipeEnd::Reader);
    for _ in 0..5 {
        assert!(registration.wake_by_ref().is_none());
    }
    assert!(registration.interest.is_none());
}

#[test]
fn the_latest_request_is_told() {
    let first = Arc::new(1u8);
    let second = Arc::new(2u8);
    let mut registration = Registration::new(PipeEnd::Reader);
    registration.register(&first, event(1, true, false), PollMode::Level);
    registration.register(&second, event(2, true, false), PollMode::Level);
    let packet = registration.wake_by_ref().unwrap();
    assert!(Arc::ptr_eq(&packet.poller, &second));
    assert_eq!(packet.event, event(2, true, false));
}

#[test]
fn each_end_announces_its_own_direction() {
    let poller = Arc::new(0u8);
    for (end, readable, writable, told) in [
        (PipeEnd::Reader, true, false, true),
        (PipeEnd::Reader, false, true, false),
        (PipeEnd::Writer, true, false, false),
        (PipeEnd::Writer, false, true, true),
        (PipeEnd::Writer, false, false, false),
    ] {
        let mut registration = Registration::new(end);
        registration.register(&poller, event(3, readable, writable), PollMode::Oneshot);
        assert_eq!(registration.wake_by_ref().is_some(), told);
        // only the event that was asked for uses the request up
        assert_eq!(registration.interest.is_some(), !told);
    }
}

#[test]
fn a_oneshot_request_is_told_once() {
    let poller = Arc::new(0u8);
    for mode in [PollMode::Oneshot, PollMode::EdgeOneshot] {
        let mut registration = Registration::new(PipeEnd::Writer);
        registration.register(&poller, event(3, true, true), mode);
        assert!(registration.wake_by_ref().is_some());
        assert!(registration.wake_by_ref().is_none());
        registration.register(&poller, event(3, true, true), mode);
        assert!(registration.wake_by_ref().is_some());
    }
}

#[test]
fn a_standing_request_is_told_each_time() {
    let poller = Arc::new(0u8);
    for mode in [PollMode::Level, PollMode::Edge] {
        let mut registration = Registration::new(PipeEnd::Reader);
        registration.register(&poller, event(4, true, true), mode);
        for _ in 0..3 {
            assert_eq!(registration.wake_by_ref().unwrap().event, event(4, true, true));
        }
    }
}

#[test]
fn the_deregistered_are_told_nothing() {
    let poller = Arc::new(0u8);
    let mut registration = Registration::new(PipeEnd::Reader);
    registration.register(&poller, event(4, true, true), PollMode::Level);
    registration.deregister();
    for _ in 0..5 {
        assert!(registration.wake_by_ref().is_none());
    }
    assert!(registration.interest.is_none());
    assert_eq!(registration.end, PipeEnd::Reader);
    registration.deregister();
    assert!(registration.interest.is_none());
}
