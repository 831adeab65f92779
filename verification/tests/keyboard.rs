use kos::keyboard::{
    add_scancode_from_irq, Key, KeyboardDriver, KeyboardEvent, KeyboardStream, PushOutcome,
    EVENT_QUEUE_CAPACITY,
};
use kos::completion::PollStatus;

type Token = u64;

fn event(i: u32) -> KeyboardEvent {
    KeyboardEvent::KeyPress(Key::Unicode(char::from_u32(i).unwrap()))
}

#[test]
fn fifo_queue_order() {
    // Pushes e1..e5 with no intervening pops come back as e1..e5.
    let mut driver: KeyboardDriver<Token> = KeyboardDriver::new();
    let stream = KeyboardStream::new();
    for i in 0..5 {
        assert!(matches!(driver.push_event(event(65 + i)), PushOutcome::Pushed(_)));
    }
    for i in 0..5 {
        match stream.poll_next(&mut driver, 1) {
            PollStatus::Ready(ev) => assert_eq!(ev, event(65 + i)),
            PollStatus::Pending => panic!("queue served fewer events than were pushed"),
        }
    }
    assert!(matches!(stream.poll_next(&mut driver, 1), PollStatus::Pending));
}

#[test]
fn overflow_drops_newest() {
    // Pushing 300 events into the capacity-256 queue: exactly the first 256
    // are retrievable, 44 are reported as dropped, and order is kept.
    let mut driver: KeyboardDriver<Token> = KeyboardDriver::new();
    let stream = KeyboardStream::new();
    let mut dropped = 0usize;
    assert_eq!(driver.dropped_events(), 0);
    for i in 0..300 {
        match driver.push_event(event(1000 + i)) {
            PushOutcome::Pushed(_) => {}
            PushOutcome::Dropped => dropped += 1,
        }
    }
    assert_eq!(dropped, 300 - EVENT_QUEUE_CAPACITY);
    assert_eq!(dropped, 44);
    assert_eq!(driver.dropped_events(), 44); // the observable overflow diagnostic
    for i in 0..EVENT_QUEUE_CAPACITY as u32 {
        match stream.poll_next(&mut driver, 1) {
            PollStatus::Ready(ev) => assert_eq!(ev, event(1000 + i)),
            PollStatus::Pending => panic!("queue served fewer events than it accepted"),
        }
    }
    assert!(matches!(stream.poll_next(&mut driver, 1), PollStatus::Pending));
}

#[test]
fn full_queue_keeps_contents() {
    // A push against a full queue fails, leaves the contents unchanged, and
    // the queue goes on serving its entries in order.
    let mut driver: KeyboardDriver<Token> = KeyboardDriver::new();
    let stream = KeyboardStream::new();
    for i in 0..EVENT_QUEUE_CAPACITY as u32 {
        assert!(matches!(driver.push_event(event(200 + i)), PushOutcome::Pushed(_)));
    }
    assert!(matches!(driver.push_event(event(9999)), PushOutcome::Dropped));
    assert!(matches!(driver.push_event(event(9998)), PushOutcome::Dropped));
    assert_eq!(driver.dropped_events(), 2);
    for i in 0..EVENT_QUEUE_CAPACITY as u32 {
        match stream.poll_next(&mut driver, 1) {
            PollStatus::Ready(ev) => assert_eq!(ev, event(200 + i)),
            PollStatus::Pending => panic!("queue lost accepted events"),
        }
    }
    assert!(matches!(stream.poll_next(&mut driver, 1), PollStatus::Pending));
}

#[test]
fn empty_queue_idempotence() {
    let mut driver: KeyboardDriver<Token> = KeyboardDriver::new();
    let stream = KeyboardStream::new();
    for w in 0..3 {
        assert!(matches!(stream.poll_next(&mut driver, w), PollStatus::Pending));
    }
    // The queue still works normally afterwards.
    assert!(matches!(driver.push_event(event(65)), PushOutcome::Pushed(_)));
    assert!(matches!(
        stream.poll_next(&mut driver, 9),
        PollStatus::Ready(KeyboardEvent::KeyPress(Key::Unicode('A')))
    ));
}

#[test]
fn push_wakes_registered_consumer() {
    let mut driver: KeyboardDriver<Token> = KeyboardDriver::new();
    let stream = KeyboardStream::new();
    // A poll on the empty queue registers the consumer...
    assert!(matches!(stream.poll_next(&mut driver, 77), PollStatus::Pending));
    // ...and the next successful push hands exactly that consumer out, once.
    match driver.push_event(event(66)) {
        PushOutcome::Pushed(woken) => assert_eq!(woken, Some(77)),
        PushOutcome::Dropped => panic!("push into empty queue dropped"),
    }
    match driver.push_event(event(67)) {
        PushOutcome::Pushed(woken) => assert_eq!(woken, None),
        PushOutcome::Dropped => panic!("push into near-empty queue dropped"),
    }
}

#[test]
fn last_registered_waker_wins() {
    let mut driver: KeyboardDriver<Token> = KeyboardDriver::new();
    driver.register_waker(1);
    driver.register_waker(2);
    match driver.push_event(event(65)) {
        PushOutcome::Pushed(woken) => assert_eq!(woken, Some(2)),
        PushOutcome::Dropped => panic!("push into empty queue dropped"),
    }
}

#[test]
fn scancode_decodes_to_keypress() {
    // Scan code set 1: 0x1E is the press of the A key; through the real
    // decoder it must surface as the decoded 'a' press, proving the chain
    // does more than hand the byte back.
    let mut driver: KeyboardDriver<Token> = KeyboardDriver::new();
    let stream = KeyboardStream::new();
    let wake = add_scancode_from_irq(&mut driver, 0x1E);
    assert_eq!(wake, None); // nobody registered
    match stream.poll_next(&mut driver, 1) {
        PollStatus::Ready(ev) => assert_eq!(ev, KeyboardEvent::KeyPress(Key::Unicode('a'))),
        PollStatus::Pending => panic!("scancode produced no event"),
    }
}

#[test]
fn incomplete_sequence_produces_no_event() {
    // 0xE0 opens an extended sequence: no event may surface for it alone.
    let mut driver: KeyboardDriver<Token> = KeyboardDriver::new();
    let stream = KeyboardStream::new();
    assert_eq!(add_scancode_from_irq(&mut driver, 0xE0), None);
    assert!(matches!(stream.poll_next(&mut driver, 1), PollStatus::Pending));
}
