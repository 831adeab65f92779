use vstd::prelude::*;
use crate::completion::PollStatus;
use crate::fifo::{bounded_push, fifo_pop};
use crate::waker::WakerSlot;

verus! {

/// The raw scancode bytes held by a bounded scancode queue, oldest first.
pub uninterp spec fn scancode_queue_contents(q: crossbeam_queue::ArrayQueue<u8>) -> Seq<u8>;

/// The fixed capacity a bounded scancode queue was created with.
pub uninterp spec fn scancode_queue_capacity(q: crossbeam_queue::ArrayQueue<u8>) -> int;

/// Relies on crossbeam_queue::ArrayQueue::new: an empty queue of the given
/// fixed capacity. It panics on a zero capacity, so that input is kept out.
#[verifier::external_body]
fn scancode_queue_new(cap: usize) -> (q: crossbeam_queue::ArrayQueue<u8>)
    requires
        cap >= 1,
    ensures
        scancode_queue_contents(q) == Seq::<u8>::empty(),
        scancode_queue_capacity(q) == cap as int,
{
    crossbeam_queue::ArrayQueue::new(cap)
}

/// Relies on crossbeam_queue::ArrayQueue::push: appends at the tail when
/// there is room; on a full queue it changes nothing and hands the value back
/// in the error.
#[verifier::external_body]
fn scancode_queue_push(q: &mut crossbeam_queue::ArrayQueue<u8>, sc: u8) -> (r: Result<(), u8>)
    ensures
        scancode_queue_capacity(*final(q)) == scancode_queue_capacity(*old(q)),
        scancode_queue_contents(*old(q)).len() < scancode_queue_capacity(*old(q)) ==> r is Ok
            && scancode_queue_contents(*final(q)) == scancode_queue_contents(*old(q)).push(sc),
        scancode_queue_contents(*old(q)).len() >= scancode_queue_capacity(*old(q)) ==> (r matches
        Err(e) && e == sc) && scancode_queue_contents(*final(q)) == scancode_queue_contents(
            *old(q),
        ),
{
    q.push(sc)
}

/// Relies on crossbeam_queue::ArrayQueue::pop: removes and returns the oldest
/// element, or nothing from an empty queue, which it leaves empty.
#[verifier::external_body]
fn scancode_queue_pop(q: &mut crossbeam_queue::ArrayQueue<u8>) -> (r: Option<u8>)
    ensures
        scancode_queue_capacity(*final(q)) == scancode_queue_capacity(*old(q)),
        scancode_queue_contents(*old(q)).len() == 0 ==> r == None::<u8>
            && scancode_queue_contents(*final(q)) == scancode_queue_contents(*old(q)),
        scancode_queue_contents(*old(q)).len() > 0 ==> r == Some(
            scancode_queue_contents(*old(q))[0],
        ) && scancode_queue_contents(*final(q)) == scancode_queue_contents(*old(q)).drop_first(),
{
    q.pop()
}

/// The fixed capacity of a scancode stream's queue.
pub const SCANCODE_QUEUE_CAPACITY: usize = 100;

/// A bounded queue of raw scancode bytes with a single-slot waker registry:
/// the interrupt handler pushes bytes in, one task drains them with the
/// double-check poll protocol. Unlike the keyboard driver, this stream hands
/// the bytes out undecoded.
pub struct ScancodeStream<W> {
    queue: crossbeam_queue::ArrayQueue<u8>,
    waker: WakerSlot<W>,
}

impl<W> ScancodeStream<W> {
    /// The queued scancodes, oldest first.
    pub closed spec fn scancodes(self) -> Seq<u8> {
        scancode_queue_contents(self.queue)
    }

    /// The queue's fixed capacity.
    pub closed spec fn capacity_spec(self) -> int {
        scancode_queue_capacity(self.queue)
    }

    /// The registered consumer, if any.
    pub closed spec fn registered(self) -> Option<W> {
        self.waker@
    }

    /// A fresh stream: empty queue of the fixed capacity, no consumer
    /// registered.
    pub fn new() -> (s: Self)
        ensures
            s.scancodes() == Seq::<u8>::empty(),
            s.capacity_spec() == SCANCODE_QUEUE_CAPACITY as int,
            s.registered() == None::<W>,
    {
        ScancodeStream { queue: scancode_queue_new(SCANCODE_QUEUE_CAPACITY), waker: WakerSlot::new() }
    }

    /// Producer side, safe for interrupt context: append the byte in FIFO
    /// order when there is room and hand out the registered consumer to be
    /// woken; against a full queue the byte is dropped (drop-newest) and
    /// nobody is woken.
    pub fn push_scancode(&mut self, sc: u8) -> (r: (bool, Option<W>))
        ensures
            final(self).capacity_spec() == old(self).capacity_spec(),
            final(self).scancodes() == bounded_push(
                old(self).scancodes(),
                old(self).capacity_spec(),
                sc,
            ).0,
            r.0 == bounded_push(old(self).scancodes(), old(self).capacity_spec(), sc).1,
            r.0 ==> r.1 == old(self).registered() && final(self).registered() == None::<W>,
            !r.0 ==> r.1 == None::<W> && final(self).registered() == old(self).registered(),
    {
        match scancode_queue_push(&mut self.queue, sc) {
            Ok(()) => {
                let woken = self.waker.take();
                (true, woken)
            },
            Err(_) => (false, None),
        }
    }

    /// One poll step of the consumer: try to pop, register the waker, try
    /// once more (the re-check closes the race with a producer pushing
    /// between the first pop and the registration); otherwise report the need
    /// to suspend. A successful second pop unregisters the waker again.
    pub fn poll_next(&mut self, w: W) -> (r: PollStatus<u8>)
        ensures
            final(self).capacity_spec() == old(self).capacity_spec(),
            final(self).scancodes() == fifo_pop(old(self).scancodes()).0,
            old(self).scancodes().len() > 0 ==> r == PollStatus::Ready(old(self).scancodes()[0])
                && final(self).registered() == old(self).registered(),
            old(self).scancodes().len() == 0 ==> r == PollStatus::<u8>::Pending
                && final(self).registered() == Some(w),
    {
        if let Some(sc) = scancode_queue_pop(&mut self.queue) {
            return PollStatus::Ready(sc);
        }
        self.waker.register(w);
        if let Some(sc) = scancode_queue_pop(&mut self.queue) {
            let _ = self.waker.take();
            return PollStatus::Ready(sc);
        }
        PollStatus::Pending
    }
}

} // verus!
