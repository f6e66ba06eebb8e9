//! One-shot countdown timers.
//!
//! The coyote window and the jump buffer are both one-shot timers used as
//! semaphores: started to a full window, counted down each tick, consumed
//! by the jump resolver, and silently expiring to idle. The state is an
//! explicit tag: `Idle` means never started, already elapsed, or consumed;
//! `Running(remaining)` carries the milliseconds left.

use vstd::prelude::*;

verus! {

/// State of a one-shot countdown timer.
#[derive(Clone, Copy, PartialEq, Eq, Structural, Debug)]
pub enum TimerState {
    /// Never started, consumed, or already elapsed.
    Idle,
    /// Counting down, with the remaining time in milliseconds.
    Running(u64),
}

/// A one-shot countdown timer with a fixed window.
#[derive(Clone, Copy, PartialEq, Eq, Structural, Debug)]
pub struct Timer {
    /// Window length in milliseconds; `start` resets the countdown to it.
    pub window: u64,
    /// Current countdown state.
    pub state: TimerState,
}

impl Timer {
    /// A running timer always holds a positive remainder within its window.
    pub open spec fn wf(self) -> bool {
        self.state matches TimerState::Running(r) ==> 0 < r <= self.window
    }

    /// Usable for a jump: running with time left.
    pub open spec fn spec_available(self) -> bool {
        self.state matches TimerState::Running(r) && r > 0
    }

    /// The value after a start: reset to the full window, or idle for a
    /// zero-length window (which elapses immediately).
    pub open spec fn spec_started(self) -> Timer {
        if self.window == 0 {
            (Timer { window: self.window, state: TimerState::Idle })
        } else {
            (Timer { window: self.window, state: TimerState::Running(self.window) })
        }
    }

    /// The value after advancing by `dt` milliseconds: a countdown while
    /// running, idle once the remainder is used up, a no-op while idle.
    pub open spec fn spec_ticked(self, dt: u64) -> Timer {
        match self.state {
            TimerState::Idle => self,
            TimerState::Running(r) => if dt >= r {
                (Timer { window: self.window, state: TimerState::Idle })
            } else {
                (Timer { window: self.window, state: TimerState::Running((r - dt) as u64) })
            },
        }
    }

    /// The value after being consumed: idle, window kept.
    pub open spec fn spec_consumed(self) -> Timer {
        (Timer { window: self.window, state: TimerState::Idle })
    }

    /// A fresh timer: idle, ready to be started.
    pub fn new(window: u64) -> (t: Timer)
        ensures
            t == (Timer { window, state: TimerState::Idle }),
            t.wf(),
    {
        Timer { window, state: TimerState::Idle }
    }

    /// Restart the countdown at the full window.
    pub fn start(&mut self)
        ensures
            *final(self) == old(self).spec_started(),
            final(self).wf(),
    {
        if self.window == 0 {
            self.state = TimerState::Idle;
        } else {
            self.state = TimerState::Running(self.window);
        }
    }

    /// Advance the countdown by `dt` milliseconds.
    pub fn tick(&mut self, dt: u64)
        ensures
            *final(self) == old(self).spec_ticked(dt),
            old(self).wf() ==> final(self).wf(),
    {
        match self.state {
            TimerState::Idle => {},
            TimerState::Running(r) => {
                if dt >= r {
                    self.state = TimerState::Idle;
                } else {
                    self.state = TimerState::Running(r - dt);
                }
            },
        }
    }

    /// Whether the timer can still be used for a jump.
    pub fn available(&self) -> (b: bool)
        ensures
            b == self.spec_available(),
    {
        match self.state {
            TimerState::Idle => false,
            TimerState::Running(r) => r > 0,
        }
    }

    /// Use the timer up: force it idle.
    pub fn consume(&mut self)
        ensures
            *final(self) == old(self).spec_consumed(),
            final(self).wf(),
    {
        self.state = TimerState::Idle;
    }
}

} // verus!
