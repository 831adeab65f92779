use kos::completion::PollStatus;
use kos::scancode::{ScancodeStream, SCANCODE_QUEUE_CAPACITY};

type Token = u64;

#[test]
fn scancode_stream_round_trip() {
    let mut stream: ScancodeStream<Token> = ScancodeStream::new();
    let (ok, woken) = stream.push_scancode(0x1E);
    assert!(ok);
    assert_eq!(woken, None);
    assert!(matches!(stream.poll_next(3), PollStatus::Ready(0x1E)));
    assert!(matches!(stream.poll_next(3), PollStatus::Pending));
}

#[test]
fn scancode_stream_fifo_and_overflow() {
    let mut stream: ScancodeStream<Token> = ScancodeStream::new();
    for i in 0..SCANCODE_QUEUE_CAPACITY {
        let (ok, _) = stream.push_scancode(i as u8);
        assert!(ok);
    }
    // The queue is at capacity: the newest byte is dropped, contents stay.
    let (ok, woken) = stream.push_scancode(0xFF);
    assert!(!ok);
    assert_eq!(woken, None);
    for i in 0..SCANCODE_QUEUE_CAPACITY {
        match stream.poll_next(1) {
            PollStatus::Ready(sc) => assert_eq!(sc, i as u8),
            PollStatus::Pending => panic!("stream lost accepted scancodes"),
        }
    }
    assert!(matches!(stream.poll_next(1), PollStatus::Pending));
}

#[test]
fn scancode_stream_wakes_consumer() {
    let mut stream: ScancodeStream<Token> = ScancodeStream::new();
    assert!(matches!(stream.poll_next(11), PollStatus::Pending));
    let (ok, woken) = stream.push_scancode(0x01);
    assert!(ok);
    assert_eq!(woken, Some(11));
    // The waiter was handed out once; the slot is empty again.
    let (ok2, woken2) = stream.push_scancode(0x02);
    assert!(ok2);
    assert_eq!(woken2, None);
}
