//! A period timer: turns a stream of elapsed-time deltas into "fired" signals.

use vstd::prelude::*;

verus! {

/// What a [`Timer`] stands for: the time gathered since it last fired, and
/// the period after which it fires. Both are in microseconds.
pub struct TimerView {
    pub accumulated: nat,
    pub period: nat,
}

/// Whether a timer in state `t` fires when `delta` more microseconds pass.
pub open spec fn timer_fires(t: TimerView, delta: u128) -> bool {
    t.accumulated + delta >= t.period
}

/// The timer's state after `delta` more microseconds. A timer that fires
/// starts again from zero: what went beyond the period is dropped, so
/// several periods within one delta count as one.
pub open spec fn timer_after(t: TimerView, delta: u128) -> TimerView {
    TimerView {
        accumulated: if timer_fires(t, delta) {
            0
        } else {
            t.accumulated + delta as nat
        },
        period: t.period,
    }
}

/// Gathers elapsed time and fires once each time a period's worth has come
/// together.
pub struct Timer {
    /// Microseconds gathered since the timer last fired.
    raw: u128,
    /// The period, in microseconds.
    length: u128,
}

impl View for Timer {
    type V = TimerView;

    closed spec fn view(&self) -> TimerView {
        TimerView { accumulated: self.raw as nat, period: self.length as nat }
    }
}

impl Timer {
    /// Between two checks the timer holds less than one period, or nothing.
    #[verifier::type_invariant]
    spec fn inv(self) -> bool {
        self.raw == 0 || self.raw < self.length
    }

    /// A timer of period `length` microseconds that has gathered nothing.
    pub fn new(length: u128) -> (t: Self)
        ensures
            t@ == (TimerView { accumulated: 0, period: length as nat }),
    {
        Self { raw: 0, length }
    }

    /// Whether the timer would fire if `delta` microseconds passed now.
    pub fn is_due(&self, delta: u128) -> (due: bool)
        ensures
            due == timer_fires(self@, delta),
        no_unwind
    {
        proof {
            use_type_invariant(self);
        }
        delta >= self.length - self.raw
    }

    /// Lets `delta` microseconds pass and says whether the timer fired.
    pub fn check(&mut self, delta: u128) -> (fired: bool)
        ensures
            fired == timer_fires(old(self)@, delta),
            final(self)@ == timer_after(old(self)@, delta),
        no_unwind
    {
        proof {
            use_type_invariant(&*self);
        }
        if self.is_due(delta) {
            self.raw = 0;
            true
        } else {
            self.raw = self.raw + delta;
            false
        }
    }
}

} // verus!
