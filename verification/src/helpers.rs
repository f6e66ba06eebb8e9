//! Helper trait over countdown timers.
//!
//! `start` rewinds a timer to its full window and `is_stopped` reports
//! whether it is out of play: paused out by consumption, expired, or never
//! started. The trait carries its own specification so that callers can be
//! verified against any implementor.

use vstd::prelude::*;
use crate::timer::Timer;

verus! {

/// A resettable one-shot timer, as the jump logic sees it.
pub trait TimerHelper: Sized {
    /// The value a start leaves behind.
    spec fn spec_start_result(&self) -> Self;

    /// What `is_stopped` reports.
    spec fn spec_is_stopped(&self) -> bool;

    /// Rewind to the full window and run.
    fn start(&mut self)
        ensures
            *final(self) == old(self).spec_start_result(),
    ;

    /// True when the timer is not running toward an open deadline.
    fn is_stopped(&mut self) -> (r: bool)
        ensures
            *final(self) == *old(self),
            r == old(self).spec_is_stopped(),
    ;
}

impl TimerHelper for Timer {
    open spec fn spec_start_result(&self) -> Timer {
        self.spec_started()
    }

    open spec fn spec_is_stopped(&self) -> bool {
        !self.spec_available()
    }

    fn start(&mut self) {
        Timer::start(self);
    }

    fn is_stopped(&mut self) -> (r: bool) {
        !self.available()
    }
}

} // verus!
