use corne_rmk::channel::EventChannel;
use corne_rmk::event::Event;

#[test]
fn channel_delivers_in_fifo_order() {
    let mut ch = EventChannel::new(16);
    assert!(ch.send(Event::Battery(1)).is_ok());
    assert!(ch.send(Event::Battery(2)).is_ok());
    assert!(ch.send(Event::Battery(3)).is_ok());
    assert_eq!(ch.len(), 3);
    for expected in [1i16, 2, 3] {
        match ch.receive() {
            Some(Event::Battery(s)) => assert_eq!(s, expected),
            _ => panic!("events must come out oldest first"),
        }
    }
    assert!(ch.is_empty());
}

#[test]
fn full_channel_refuses_and_returns_the_event() {
    let mut ch = EventChannel::new(2);
    assert!(ch.send(Event::Battery(1)).is_ok());
    assert!(ch.send(Event::Battery(2)).is_ok());
    assert!(ch.is_full());
    // Backpressure: the event comes back so the producer can retry;
    // nothing already queued is dropped.
    match ch.send(Event::Battery(3)) {
        Err(Event::Battery(s)) => assert_eq!(s, 3),
        _ => panic!("a full channel must hand the event back"),
    }
    assert_eq!(ch.len(), 2);
    match ch.receive() {
        Some(Event::Battery(s)) => assert_eq!(s, 1),
        _ => panic!("the queue must be intact after a refused send"),
    }
}

#[test]
fn empty_channel_yields_nothing() {
    let mut ch = EventChannel::new(4);
    assert!(ch.receive().is_none());
    assert_eq!(ch.len(), 0);
    assert_eq!(ch.capacity(), 4);
}

#[test]
fn send_after_receive_reuses_freed_space() {
    let mut ch = EventChannel::new(1);
    assert!(ch.send(Event::Battery(10)).is_ok());
    assert!(ch.send(Event::Battery(11)).is_err());
    match ch.receive() {
        Some(Event::Battery(s)) => assert_eq!(s, 10),
        _ => panic!("the queued event must come out"),
    }
    assert!(ch.send(Event::Battery(11)).is_ok());
    match ch.receive() {
        Some(Event::Battery(s)) => assert_eq!(s, 11),
        _ => panic!("the retried event must come out"),
    }
}
