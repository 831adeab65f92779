use vstd::prelude::*;

verus! {

/// Single-slot waker registry: tracks at most one pending waiter.
///
/// Registering overwrites any previous occupant (last-registered-wins), so a
/// second concurrent waiter silently loses its wakeup; taking consumes the
/// occupant. The waker type `W` is opaque to the registry: callers decide what
/// a wakeup handle is and how to notify it.
pub struct WakerSlot<W> {
    occupant: Option<W>,
}

impl<W> View for WakerSlot<W> {
    type V = Option<W>;

    closed spec fn view(&self) -> Option<W> {
        self.occupant
    }
}

impl<W> WakerSlot<W> {
    /// An empty registry: nobody is waiting.
    pub fn new() -> (slot: Self)
        ensures
            slot@ == None::<W>,
    {
        WakerSlot { occupant: None }
    }

    /// Register `w` as the waiter to notify next, displacing any previous
    /// occupant (last-registered-wins).
    pub fn register(&mut self, w: W)
        ensures
            final(self)@ == Some(w),
    {
        self.occupant = Some(w);
    }

    /// Remove and return the occupant, if any; the slot is empty afterwards,
    /// so each registered waiter can be handed out for notification at most
    /// once.
    pub fn take(&mut self) -> (w: Option<W>)
        ensures
            w == old(self)@,
            final(self)@ == None::<W>,
    {
        self.occupant.take()
    }
}

} // verus!
