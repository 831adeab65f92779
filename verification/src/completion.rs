use vstd::prelude::*;
use crate::waker::WakerSlot;

verus! {

/// Result of a poll: either the awaited value, or a signal to suspend and
/// wait for a wakeup.
pub enum PollStatus<T> {
    Ready(T),
    Pending,
}

/// A poll result as what it yielded, if anything.
pub open spec fn poll_status_model<T>(r: PollStatus<T>) -> Option<T> {
    match r {
        PollStatus::Ready(v) => Some(v),
        PollStatus::Pending => None,
    }
}

/// Mathematical state of a completion cell: a monotonic pending/completed
/// flag, the published result (meaningful only once completed), and the
/// single-slot waker registry.
pub struct CellModel<W> {
    pub completed: bool,
    pub result: i32,
    pub waker: Option<W>,
}

/// What an observer sees: the result once the cell is completed, nothing
/// before.
pub open spec fn observe_model<W>(c: CellModel<W>) -> Option<i32> {
    if c.completed {
        Some(c.result)
    } else {
        None
    }
}

/// Publication: the result is stored, the cell is marked completed, and the
/// registered waiter (if any) leaves the slot to be notified.
pub open spec fn publish_model<W>(c: CellModel<W>, res: i32) -> (CellModel<W>, Option<W>) {
    (CellModel { completed: true, result: res, waker: None }, c.waker)
}

/// Waker registration: last-registered-wins, nothing else moves.
pub open spec fn register_model<W>(c: CellModel<W>, w: W) -> CellModel<W> {
    CellModel { completed: c.completed, result: c.result, waker: Some(w) }
}

/// The single-waiter poll protocol: a completed cell yields its result and
/// sheds any stale registration; a pending cell records `w` as the waiter to
/// notify and yields nothing.
pub open spec fn poll_model<W>(c: CellModel<W>, w: W) -> (CellModel<W>, Option<i32>) {
    if c.completed {
        (CellModel { completed: c.completed, result: c.result, waker: None }, Some(c.result))
    } else {
        (register_model(c, w), None)
    }
}

/// Per-operation completion cell: pending-or-completed status, the published
/// result, and one optional waker.
///
/// Single-completer, single-waiter contract: the cell does not defend against
/// a second completion (the second result wins and the first is lost) nor
/// against two concurrent waiters (only the last registered is ever woken).
pub struct CompletionCell<W> {
    completed: bool,
    result: i32,
    waker: WakerSlot<W>,
}

impl<W> View for CompletionCell<W> {
    type V = CellModel<W>;

    closed spec fn view(&self) -> CellModel<W> {
        CellModel { completed: self.completed, result: self.result, waker: self.waker@ }
    }
}

impl<W> CompletionCell<W> {
    /// A fresh cell: pending, no waiter registered. The initial result value
    /// is never observable through `try_result`.
    pub fn new() -> (cell: Self)
        ensures
            cell@ == (CellModel { completed: false, result: -1i32, waker: None::<W> }),
    {
        CompletionCell { completed: false, result: -1, waker: WakerSlot::new() }
    }

    /// Publish `res` and mark the cell completed, handing back the registered
    /// waiter so the caller can notify it. The store of the result and the
    /// completion mark are one atomic step of this model; a concurrent
    /// implementation must publish the result before the completed flag
    /// (release) so no observer trusts a half-written value.
    pub fn complete(&mut self, res: i32) -> (wake: Option<W>)
        ensures
            final(self)@ == publish_model(old(self)@, res).0,
            wake == publish_model(old(self)@, res).1,
    {
        self.result = res;
        self.completed = true;
        self.waker.take()
    }

    /// Non-blocking observation: the published result once completed,
    /// nothing before (an acquire load in a concurrent implementation).
    pub fn try_result(&self) -> (r: Option<i32>)
        ensures
            r == observe_model(self@),
    {
        if self.completed {
            Some(self.result)
        } else {
            None
        }
    }

    /// Register `w` as the waiter to notify on completion, displacing any
    /// previous registration.
    pub fn register(&mut self, w: W)
        ensures
            final(self)@ == register_model(old(self)@, w),
    {
        self.waker.register(w);
    }

    /// One poll step: check, register, then check again. The re-check after
    /// registration closes the race in which a concurrent completer publishes
    /// between the first check and the registration — without it that
    /// notification would be lost and the waiting task would hang.
    pub fn poll(&mut self, w: W) -> (r: Option<i32>)
        ensures
            final(self)@ == poll_model(old(self)@, w).0,
            r == poll_model(old(self)@, w).1,
    {
        if let Some(res) = self.try_result() {
            let _ = self.waker.take();
            return Some(res);
        }
        self.waker.register(w);
        if let Some(res) = self.try_result() {
            let _ = self.waker.take();
            return Some(res);
        }
        None
    }
}

/// Completion visibility: once a result has been published, observation
/// returns exactly that value — and keeps doing so across later waker
/// registrations and polls, which never touch the published result.
pub proof fn lemma_completion_visibility<W>(c: CellModel<W>, res: i32, w: W)
    ensures
        observe_model(publish_model(c, res).0) == Some(res),
        observe_model(register_model(publish_model(c, res).0, w)) == Some(res),
        poll_model(publish_model(c, res).0, w).1 == Some(res),
        observe_model(poll_model(publish_model(c, res).0, w).0) == Some(res),
{
}

/// No missed wakeup. If a poll finds the cell pending it registers its waker,
/// and a publication that happens after that registration hands exactly that
/// waker out for notification, leaving the slot empty — so the waiter is
/// notified exactly once. If publication happened before the poll, the poll
/// observes readiness at once and leaves no registration behind.
pub proof fn lemma_no_missed_wakeup<W>(c: CellModel<W>, w: W, res: i32)
    ensures
        !c.completed ==> poll_model(c, w).1 == None::<i32>,
        !c.completed ==> publish_model(poll_model(c, w).0, res).1 == Some(w),
        !c.completed ==> publish_model(poll_model(c, w).0, res).0.waker == None::<W>,
        c.completed ==> poll_model(c, w).1 == Some(c.result) && poll_model(c, w).0.waker
            == None::<W>,
{
}

} // verus!
