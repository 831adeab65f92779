use vstd::prelude::*;
use crate::completion::PollStatus;
use crate::fifo::{bounded_push, fifo_pop};
use crate::waker::WakerSlot;
use pc_keyboard::{HandleControl, PS2Keyboard, ScancodeSet1};
use pc_keyboard::layouts::Us104Key;

verus! {

/// A decoded key: the key's character where the layout gives one, otherwise
/// the raw key-code number.
#[derive(Debug, Clone, Copy, PartialEq, Eq)]
pub enum Key {
    Unicode(char),
    Raw(u8),
}

/// A decoded keyboard event. Only presses are ever produced by the decoder;
/// the release variant is part of the event vocabulary but no consumer may
/// count on observing it.
#[derive(Debug, Clone, Copy, PartialEq, Eq)]
pub enum KeyboardEvent {
    KeyPress(Key),
    KeyRelease(Key),
}

/// The pc_keyboard scancode decoder, held opaquely. Declaring the outside
/// type itself is refused here (its declaration would need pc_keyboard's own
/// traits as bounds), so this trusted struct hides it whole; the wrappers
/// below are its only doors.
#[verifier::external_body]
pub struct ScancodeDecoder {
    inner: PS2Keyboard<Us104Key, ScancodeSet1>,
}

#[verifier::external_type_specification]
#[verifier::external_body]
pub struct ExKeyEvent(pc_keyboard::KeyEvent);

/// The key event pc_keyboard::PS2Keyboard::add_byte yields for a given
/// decoder state and scancode byte (none for an incomplete sequence or a
/// decode error): a function of the two alone, the same on every machine.
pub uninterp spec fn add_byte_result(d: ScancodeDecoder, byte: u8) -> Option<pc_keyboard::KeyEvent>;

/// The decoder state pc_keyboard::PS2Keyboard::add_byte leaves behind.
pub uninterp spec fn add_byte_state(d: ScancodeDecoder, byte: u8) -> ScancodeDecoder;

/// The key pc_keyboard::PS2Keyboard::process_keyevent yields for a given
/// decoder state and key event, carried over to this library's keys (none
/// where the layout gives no decoded key): again a function of the two alone.
pub uninterp spec fn process_result(d: ScancodeDecoder, ev: pc_keyboard::KeyEvent) -> Option<Key>;

/// The decoder state pc_keyboard::PS2Keyboard::process_keyevent leaves behind.
pub uninterp spec fn process_state(d: ScancodeDecoder, ev: pc_keyboard::KeyEvent) -> ScancodeDecoder;

/// Relies on pc_keyboard::PS2Keyboard::new (with pc_keyboard::ScancodeSet1::new)
/// to build a fresh US-104, scan-code-set-1 decoder that ignores the control
/// mapping. The decoder's internal state is opaque here.
#[verifier::external_body]
fn decoder_new() -> (kb: ScancodeDecoder) {
    ScancodeDecoder {
        inner: PS2Keyboard::new(ScancodeSet1::new(), Us104Key, HandleControl::Ignore),
    }
}

/// Relies on pc_keyboard::PS2Keyboard::add_byte to advance the decoder by one
/// scancode byte. A key event comes back only when the byte completes a
/// sequence; an incomplete sequence or a decode error yields none. The
/// decoder is a pure state machine, so what comes back and what state is left
/// are named functions of the old state and the byte.
#[verifier::external_body]
fn decoder_add_byte(kb: &mut ScancodeDecoder, byte: u8) -> (ev: Option<pc_keyboard::KeyEvent>)
    ensures
        ev == add_byte_result(*old(kb), byte),
        *final(kb) == add_byte_state(*old(kb), byte),
{
    match kb.inner.add_byte(byte) {
        Ok(ev) => ev,
        Err(_) => None,
    }
}

/// Relies on pc_keyboard::PS2Keyboard::process_keyevent to turn a key event
/// into a decoded key, where the layout and modifier state give one. The
/// decoder is a pure state machine, so the decoded key and the state left
/// behind are named functions of the old state and the event.
#[verifier::external_body]
fn decoder_process(kb: &mut ScancodeDecoder, ev: pc_keyboard::KeyEvent) -> (k: Option<Key>)
    ensures
        k == process_result(*old(kb), ev),
        *final(kb) == process_state(*old(kb), ev),
{
    match kb.inner.process_keyevent(ev) {
        Some(pc_keyboard::DecodedKey::Unicode(c)) => Some(Key::Unicode(c)),
        Some(pc_keyboard::DecodedKey::RawKey(code)) => Some(Key::Raw(code as u8)),
        None => None,
    }
}

/// The decoded key one scancode byte yields in a given decoder state, if any:
/// the byte must complete a sequence, and the resulting event must map to a
/// key under the layout.
pub open spec fn decoded_key_of(d: ScancodeDecoder, byte: u8) -> Option<Key> {
    match add_byte_result(d, byte) {
        Some(ev) => process_result(add_byte_state(d, byte), ev),
        None => None,
    }
}

/// The decoder state after one scancode byte has run through the decode
/// chain: the event, if the byte completed one, is processed too.
pub open spec fn decoder_after(d: ScancodeDecoder, byte: u8) -> ScancodeDecoder {
    match add_byte_result(d, byte) {
        Some(ev) => process_state(add_byte_state(d, byte), ev),
        None => add_byte_state(d, byte),
    }
}

#[verifier::external_type_specification]
#[verifier::external_body]
#[verifier::reject_recursive_types(T)]
pub struct ExArrayQueue<T>(crossbeam_queue::ArrayQueue<T>);

/// The events held by a bounded event queue, oldest first.
pub uninterp spec fn event_queue_contents(q: crossbeam_queue::ArrayQueue<KeyboardEvent>) -> Seq<
    KeyboardEvent,
>;

/// The fixed capacity a bounded event queue was created with.
pub uninterp spec fn event_queue_capacity(q: crossbeam_queue::ArrayQueue<KeyboardEvent>) -> int;

/// Relies on crossbeam_queue::ArrayQueue::new: an empty queue of the given
/// fixed capacity. It panics on a zero capacity, so that input is kept out.
#[verifier::external_body]
fn event_queue_new(cap: usize) -> (q: crossbeam_queue::ArrayQueue<KeyboardEvent>)
    requires
        cap >= 1,
    ensures
        event_queue_contents(q) == Seq::<KeyboardEvent>::empty(),
        event_queue_capacity(q) == cap as int,
{
    crossbeam_queue::ArrayQueue::new(cap)
}

/// Relies on crossbeam_queue::ArrayQueue::push: appends at the tail when
/// there is room; on a full queue it changes nothing and hands the value back
/// in the error.
#[verifier::external_body]
fn event_queue_push(q: &mut crossbeam_queue::ArrayQueue<KeyboardEvent>, ev: KeyboardEvent) -> (r: Result<(), KeyboardEvent>)
    ensures
        event_queue_capacity(*final(q)) == event_queue_capacity(*old(q)),
        event_queue_contents(*old(q)).len() < event_queue_capacity(*old(q)) ==> r is Ok
            && event_queue_contents(*final(q)) == event_queue_contents(*old(q)).push(ev),
        event_queue_contents(*old(q)).len() >= event_queue_capacity(*old(q)) ==> (r matches Err(e)
            && e == ev) && event_queue_contents(*final(q)) == event_queue_contents(*old(q)),
{
    q.push(ev)
}

/// Relies on crossbeam_queue::ArrayQueue::pop: removes and returns the oldest
/// element, or nothing from an empty queue, which it leaves empty.
#[verifier::external_body]
fn event_queue_pop(q: &mut crossbeam_queue::ArrayQueue<KeyboardEvent>) -> (r: Option<KeyboardEvent>)
    ensures
        event_queue_capacity(*final(q)) == event_queue_capacity(*old(q)),
        event_queue_contents(*old(q)).len() == 0 ==> r == None::<KeyboardEvent>
            && event_queue_contents(*final(q)) == event_queue_contents(*old(q)),
        event_queue_contents(*old(q)).len() > 0 ==> r == Some(event_queue_contents(*old(q))[0])
            && event_queue_contents(*final(q)) == event_queue_contents(*old(q)).drop_first(),
{
    q.pop()
}

/// The fixed capacity of the driver's event queue.
pub const EVENT_QUEUE_CAPACITY: usize = 256;

/// What became of a pushed event.
pub enum PushOutcome<W> {
    /// The event was enqueued; the registered consumer, if any, is handed out
    /// to be woken.
    Pushed(Option<W>),
    /// The queue was full: the event was dropped, the queue is unchanged, and
    /// nobody is woken.
    Dropped,
}

/// The keyboard driver: a scancode decoder, a bounded FIFO of decoded events
/// that an interrupt-context producer fills, a single-slot waker registry for
/// the one consumer, and a count of events dropped against a full queue (the
/// overflow diagnostic).
pub struct KeyboardDriver<W> {
    decoder: ScancodeDecoder,
    queue: crossbeam_queue::ArrayQueue<KeyboardEvent>,
    waker: WakerSlot<W>,
    dropped: u64,
}

impl<W> KeyboardDriver<W> {
    /// The queued events, oldest first.
    pub closed spec fn events(self) -> Seq<KeyboardEvent> {
        event_queue_contents(self.queue)
    }

    /// The queue's fixed capacity.
    pub closed spec fn capacity_spec(self) -> int {
        event_queue_capacity(self.queue)
    }

    /// The registered consumer, if any.
    pub closed spec fn registered(self) -> Option<W> {
        self.waker@
    }

    /// How many events have been dropped against a full queue.
    pub closed spec fn dropped_count(self) -> u64 {
        self.dropped
    }

    /// The decoder's current (opaque) state.
    pub closed spec fn decoder_state(self) -> ScancodeDecoder {
        self.decoder
    }

    /// A fresh driver: empty queue of the fixed capacity, no consumer
    /// registered, nothing dropped yet.
    pub fn new() -> (driver: Self)
        ensures
            driver.events() == Seq::<KeyboardEvent>::empty(),
            driver.capacity_spec() == EVENT_QUEUE_CAPACITY as int,
            driver.registered() == None::<W>,
            driver.dropped_count() == 0,
    {
        KeyboardDriver {
            decoder: decoder_new(),
            queue: event_queue_new(EVENT_QUEUE_CAPACITY),
            waker: WakerSlot::new(),
            dropped: 0,
        }
    }

    /// Push one decoded event: appended in FIFO order when there is room, in
    /// which case the registered consumer is handed out to be woken; dropped
    /// (drop-newest) against a full queue, counted and with nobody woken.
    pub fn push_event(&mut self, ev: KeyboardEvent) -> (r: PushOutcome<W>)
        ensures
            final(self).capacity_spec() == old(self).capacity_spec(),
            final(self).decoder_state() == old(self).decoder_state(),
            final(self).events() == bounded_push(
                old(self).events(),
                old(self).capacity_spec(),
                ev,
            ).0,
            bounded_push(old(self).events(), old(self).capacity_spec(), ev).1 ==> {
                &&& r == PushOutcome::Pushed(old(self).registered())
                &&& final(self).registered() == None::<W>
                &&& final(self).dropped_count() == old(self).dropped_count()
            },
            !bounded_push(old(self).events(), old(self).capacity_spec(), ev).1 ==> {
                &&& r == PushOutcome::<W>::Dropped
                &&& final(self).registered() == old(self).registered()
                &&& final(self).dropped_count() == if old(self).dropped_count() < u64::MAX {
                    (old(self).dropped_count() + 1) as u64
                } else {
                    old(self).dropped_count()
                }
            },
    {
        match event_queue_push(&mut self.queue, ev) {
            Ok(()) => {
                let woken = self.waker.take();
                PushOutcome::Pushed(woken)
            },
            Err(_) => {
                if self.dropped < u64::MAX {
                    self.dropped = self.dropped + 1;
                }
                PushOutcome::Dropped
            },
        }
    }

    /// Feed one raw scancode byte through the decoder and, when it completes
    /// an event, push the resulting key press.
    pub fn handle_scancode(&mut self, scancode: u8) -> (wake: Option<W>)
        ensures
            scancode_outcome(*old(self), *final(self), scancode, wake),
    {
        if let Some(raw) = decoder_add_byte(&mut self.decoder, scancode) {
            if let Some(key) = decoder_process(&mut self.decoder, raw) {
                let ev = KeyboardEvent::KeyPress(key);
                match self.push_event(ev) {
                    PushOutcome::Pushed(woken) => {
                        return woken;
                    },
                    PushOutcome::Dropped => {
                        return None;
                    },
                }
            }
        }
        None
    }

    /// Register `w` as the consumer to wake on the next successful push,
    /// displacing any previous registration.
    pub fn register_waker(&mut self, w: W)
        ensures
            final(self).events() == old(self).events(),
            final(self).capacity_spec() == old(self).capacity_spec(),
            final(self).dropped_count() == old(self).dropped_count(),
            final(self).decoder_state() == old(self).decoder_state(),
            final(self).registered() == Some(w),
    {
        self.waker.register(w);
    }

    /// The overflow diagnostic, readable by the caller: how many events have
    /// been dropped against a full queue so far.
    pub fn dropped_events(&self) -> (n: u64)
        ensures
            n == self.dropped_count(),
    {
        self.dropped
    }
}

/// One more dropped event, counted without wrapping.
pub open spec fn count_drop(n: u64) -> u64 {
    if n < u64::MAX {
        (n + 1) as u64
    } else {
        n
    }
}

/// What one scancode step does. The byte runs through the decoder, whose
/// yield and new state are functions of its old state and the byte alone; a
/// byte that decodes to a key pushes that key press — waking the registered
/// consumer, or, against a full queue, dropping the event and counting it —
/// and a byte that decodes to nothing leaves the queue, the registry and the
/// count untouched.
pub open spec fn scancode_outcome<W>(
    pre: KeyboardDriver<W>,
    post: KeyboardDriver<W>,
    scancode: u8,
    wake: Option<W>,
) -> bool {
    &&& post.capacity_spec() == pre.capacity_spec()
    &&& post.decoder_state() == decoder_after(pre.decoder_state(), scancode)
    &&& match decoded_key_of(pre.decoder_state(), scancode) {
        Some(key) => {
            &&& post.events() == bounded_push(
                pre.events(),
                pre.capacity_spec(),
                KeyboardEvent::KeyPress(key),
            ).0
            &&& if pre.events().len() < pre.capacity_spec() {
                &&& wake == pre.registered()
                &&& post.registered() == None::<W>
                &&& post.dropped_count() == pre.dropped_count()
            } else {
                &&& wake == None::<W>
                &&& post.registered() == pre.registered()
                &&& post.dropped_count() == count_drop(pre.dropped_count())
            }
        },
        None => {
            &&& post.events() == pre.events()
            &&& post.registered() == pre.registered()
            &&& post.dropped_count() == pre.dropped_count()
            &&& wake == None::<W>
        },
    }
}

/// The interrupt handler's entry point: feed the scancode just read from the
/// controller into the driver the dispatch path was handed at initialization.
/// The returned waker, if any, is the consumer to notify.
pub fn add_scancode_from_irq<W>(driver: &mut KeyboardDriver<W>, scancode: u8) -> (wake: Option<W>)
    ensures
        scancode_outcome(*old(driver), *final(driver), scancode, wake),
{
    driver.handle_scancode(scancode)
}

/// Poll-based consumer of the driver's event queue: the same double-check
/// protocol as the request future, yielding a sequence of events rather than
/// one value. The driver it consumes is passed in explicitly at each poll.
pub struct KeyboardStream;

impl KeyboardStream {
    /// A fresh stream over a driver's event queue.
    pub fn new() -> (s: Self) {
        KeyboardStream
    }

    /// One poll step: try to pop, register the consumer's waker, then try
    /// once more (the re-check closes the race with a producer pushing
    /// between the first pop and the registration); otherwise report the need
    /// to suspend.
    pub fn poll_next<W>(&self, driver: &mut KeyboardDriver<W>, w: W) -> (r: PollStatus<
        KeyboardEvent,
    >)
        ensures
            final(driver).capacity_spec() == old(driver).capacity_spec(),
            final(driver).dropped_count() == old(driver).dropped_count(),
            final(driver).decoder_state() == old(driver).decoder_state(),
            final(driver).events() == fifo_pop(old(driver).events()).0,
            old(driver).events().len() > 0 ==> r == PollStatus::Ready(old(driver).events()[0])
                && final(driver).registered() == old(driver).registered(),
            old(driver).events().len() == 0 ==> r == PollStatus::<KeyboardEvent>::Pending && final(driver).registered() == Some(w),
    {
        if let Some(ev) = event_queue_pop(&mut driver.queue) {
            return PollStatus::Ready(ev);
        }
        driver.waker.register(w);
        if let Some(ev) = event_queue_pop(&mut driver.queue) {
            return PollStatus::Ready(ev);
        }
        PollStatus::Pending
    }
}

} // verus!
