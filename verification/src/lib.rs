//! Asynchronous event/completion bridge for a cooperatively scheduled kernel:
//! a request/future completion protocol for block I/O (completion cells,
//! single-waiter futures, a pending-request ledger) and an interrupt-to-stream
//! event bridge (bounded FIFO event queue with a single-slot waker registry),
//! together with the RAM-backed block store and CMOS time decoding they serve.

pub mod waker;
pub mod fifo;
pub mod completion;
pub mod ramdisk;
pub mod rtc;
pub mod blockdev;
pub mod keyboard;
pub mod scancode;
