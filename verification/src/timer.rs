//! The state of a one-shot timer future: what `poll` decides at each
//! step, and what the timer's completion does. The clock and the waking
//! are whoever drives the future; this is the decision at each poll.

use vstd::prelude::*;

verus! {

/// What one poll of the timer yields.
#[derive(Clone, Copy, Debug, PartialEq, Eq, Structural)]
pub enum TimerPoll {
    Ready,
    Pending,
}

/// A one-shot timer future: complete or not, and whether a waker has
/// been registered for it.
#[derive(Clone, Copy, Debug, PartialEq, Eq, Structural)]
pub struct TimerFuture {
    pub completed: bool,
    pub waker_registered: bool,
}

impl TimerFuture {
    /// A fresh timer: not complete, no waker registered yet.
    pub fn new() -> (r: TimerFuture)
        ensures
            r == (TimerFuture { completed: false, waker_registered: false }),
    {
        TimerFuture { completed: false, waker_registered: false }
    }

    /// One poll: a completed timer is ready; an incomplete one registers
    /// the caller's waker and stays pending.
    pub fn poll_step(&mut self) -> (r: TimerPoll)
        ensures
            old(self).completed ==> r == TimerPoll::Ready && *final(self) == *old(self),
            !old(self).completed ==> r == TimerPoll::Pending && *final(self) == (TimerFuture {
                completed: false,
                waker_registered: true,
            }),
    {
        if self.completed {
            TimerPoll::Ready
        } else {
            self.waker_registered = true;
            TimerPoll::Pending
        }
    }

    /// The timer elapses: the future completes; the registered waker, if
    /// any, is what the driver then invokes.
    pub fn fire(&mut self)
        ensures
            final(self).completed,
            final(self).waker_registered == old(self).waker_registered,
    {
        self.completed = true;
    }
}

} // verus!
