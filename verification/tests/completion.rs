use kos::completion::CompletionCell;
use kos::waker::WakerSlot;

type Token = u64;

#[test]
fn completion_visibility() {
    // Once a result is published, every subsequent observation returns it.
    let mut cell: CompletionCell<Token> = CompletionCell::new();
    assert_eq!(cell.try_result(), None);
    let wake = cell.complete(42);
    assert_eq!(wake, None);
    for _ in 0..3 {
        assert_eq!(cell.try_result(), Some(42));
    }
    cell.register(5);
    assert_eq!(cell.try_result(), Some(42));
    assert_eq!(cell.poll(6), Some(42));
    assert_eq!(cell.try_result(), Some(42));
}

#[test]
fn no_missed_wakeup() {
    // Completion after registration notifies the registered waker exactly
    // once; completion before the first poll is observed without registering.
    let mut cell: CompletionCell<Token> = CompletionCell::new();
    assert_eq!(cell.poll(9), None); // pending: registers waker 9
    let wake = cell.complete(1);
    assert_eq!(wake, Some(9)); // handed out exactly once...
    let mut again: CompletionCell<Token> = CompletionCell::new();
    again.complete(2);
    assert_eq!(again.poll(10), Some(2)); // ready at once, nothing registered
    let wake2 = again.complete(3); // the single-completer contract was broken...
    assert_eq!(wake2, None); // ...but no waker appears out of nowhere
}

#[test]
fn second_completion_overwrites() {
    // The documented single-completer contract: a second completion's value
    // wins and the first is lost; nothing is corrupted.
    let mut cell: CompletionCell<Token> = CompletionCell::new();
    cell.complete(1);
    cell.complete(2);
    assert_eq!(cell.try_result(), Some(2));
}

#[test]
fn waker_slot_last_wins() {
    let mut slot: WakerSlot<Token> = WakerSlot::new();
    assert_eq!(slot.take(), None);
    slot.register(1);
    slot.register(2);
    assert_eq!(slot.take(), Some(2)); // last-registered-wins
    assert_eq!(slot.take(), None); // handed out at most once
}
