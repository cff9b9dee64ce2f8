//! A run-once countdown over nanoseconds.

use vstd::prelude::*;

verus! {

/// Nanoseconds in one second.
pub const NANOS_PER_SECOND: u64 = 1_000_000_000;

/// What a [`Countdown`] stands for: its whole duration and the time run so
/// far, both in nanoseconds.
pub struct CountdownView {
    pub duration: nat,
    pub elapsed: nat,
}

impl CountdownView {
    /// A timer that has not run yet.
    pub open spec fn fresh(duration: nat) -> CountdownView {
        CountdownView { duration, elapsed: 0 }
    }

    /// Whether the whole duration has run.
    pub open spec fn finished(self) -> bool {
        self.elapsed >= self.duration
    }

    /// The timer after `delta` more nanoseconds: it stops at its duration.
    pub open spec fn after(self, delta: nat) -> CountdownView {
        CountdownView {
            duration: self.duration,
            elapsed: if self.elapsed + delta >= self.duration {
                self.duration
            } else {
                self.elapsed + delta
            },
        }
    }

    /// Whole seconds still to run, rounded up; zero once finished.
    pub open spec fn secs_remaining(self) -> nat {
        if self.finished() {
            0
        } else {
            ceil_secs((self.duration - self.elapsed) as nat)
        }
    }
}

/// The least number of whole seconds that covers `nanos` nanoseconds.
pub open spec fn ceil_secs(nanos: nat) -> nat {
    if nanos % (NANOS_PER_SECOND as nat) == 0 {
        nanos / (NANOS_PER_SECOND as nat)
    } else {
        nanos / (NANOS_PER_SECOND as nat) + 1
    }
}

/// The duration in nanoseconds of a timer over `secs` seconds, held to the
/// longest duration a timer can have.
pub open spec fn secs_to_nanos(secs: nat) -> nat {
    if secs * (NANOS_PER_SECOND as nat) <= u64::MAX as nat {
        secs * (NANOS_PER_SECOND as nat)
    } else {
        u64::MAX as nat
    }
}

/// A timer that runs once from zero up to its duration and then stays
/// finished.
#[derive(Clone, Copy, Debug)]
pub struct Countdown {
    duration: u64,
    elapsed: u64,
}

impl View for Countdown {
    type V = CountdownView;

    closed spec fn view(&self) -> CountdownView {
        CountdownView { duration: self.duration as nat, elapsed: self.elapsed as nat }
    }
}

impl Countdown {
    /// The elapsed time never passes the duration.
    #[verifier::type_invariant]
    closed spec fn within_duration(self) -> bool {
        self.elapsed <= self.duration
    }

    /// A fresh timer over `duration` nanoseconds.
    pub fn from_nanos(duration: u64) -> (timer: Countdown)
        ensures
            timer@ == CountdownView::fresh(duration as nat),
    {
        Countdown { duration, elapsed: 0 }
    }

    /// A fresh timer over `secs` seconds.
    pub fn from_secs(secs: u64) -> (timer: Countdown)
        ensures
            timer@ == CountdownView::fresh(secs_to_nanos(secs as nat)),
    {
        match secs.checked_mul(NANOS_PER_SECOND) {
            Some(duration) => Countdown { duration, elapsed: 0 },
            None => Countdown { duration: u64::MAX, elapsed: 0 },
        }
    }

    /// Total running time in nanoseconds.
    pub fn duration(&self) -> (nanos: u64)
        ensures
            nanos == self@.duration,
    {
        self.duration
    }

    /// Time run so far in nanoseconds.
    pub fn elapsed(&self) -> (nanos: u64)
        ensures
            nanos == self@.elapsed,
            nanos <= self@.duration,
    {
        proof {
            use_type_invariant(self);
        }
        self.elapsed
    }

    /// Whether the whole duration has run.
    pub fn finished(&self) -> (done: bool)
        ensures
            done == self@.finished(),
    {
        self.elapsed >= self.duration
    }

    /// Advances the timer by `delta` nanoseconds, stopping at the duration.
    pub fn tick(&mut self, delta: u64)
        ensures
            final(self)@ == old(self)@.after(delta as nat),
    {
        proof {
            use_type_invariant(&*self);
        }
        let room: u64 = self.duration - self.elapsed;
        if delta >= room {
            self.elapsed = self.duration;
        } else {
            self.elapsed = self.elapsed + delta;
        }
    }

    /// Whole seconds still to run, rounded up; zero once finished.
    pub fn secs_remaining(&self) -> (secs: u64)
        ensures
            secs == self@.secs_remaining(),
    {
        proof {
            use_type_invariant(self);
        }
        if self.elapsed >= self.duration {
            0
        } else {
            let left: u64 = self.duration - self.elapsed;
            let whole: u64 = left / NANOS_PER_SECOND;
            if left % NANOS_PER_SECOND == 0 {
                whole
            } else {
                whole + 1
            }
        }
    }
}

/// Whole seconds that `timer` still has to run, held to the largest count
/// that fits the result.
pub open spec fn spec_timer_to_secs_remaining(timer: CountdownView) -> u32 {
    if timer.secs_remaining() > u32::MAX {
        u32::MAX
    } else {
        timer.secs_remaining() as u32
    }
}

/// Whole seconds that `timer` still has to run, rounded up; zero once it
/// has finished.
pub fn timer_to_secs_remaining(timer: &Countdown) -> (secs: u32)
    ensures
        secs == spec_timer_to_secs_remaining(timer@),
{
    let secs: u64 = timer.secs_remaining();
    if secs > u32::MAX as u64 {
        u32::MAX
    } else {
        secs as u32
    }
}

/// Ticking never runs a timer backwards, keeps its duration, and a finished
/// timer stays finished.
pub proof fn lemma_tick_monotone(timer: CountdownView, delta: nat)
    requires
        timer.elapsed <= timer.duration,
    ensures
        timer.after(delta).duration == timer.duration,
        timer.elapsed <= timer.after(delta).elapsed <= timer.duration,
        timer.finished() ==> timer.after(delta) == timer,
        timer.after(delta).secs_remaining() <= timer.secs_remaining(),
{
    let left_before = (timer.duration - timer.elapsed) as nat;
    let left_after = (timer.duration - timer.after(delta).elapsed) as nat;
    assert(left_after <= left_before);
    lemma_ceil_secs_monotone(left_after, left_before);
}

/// Rounding up to whole seconds keeps the order of two spans.
pub proof fn lemma_ceil_secs_monotone(a: nat, b: nat)
    requires
        a <= b,
    ensures
        ceil_secs(a) <= ceil_secs(b),
{
    let n = NANOS_PER_SECOND as nat;
    assert(a / n <= b / n) by (nonlinear_arith)
        requires
            a <= b,
            n > 0,
    ;
    if a % n != 0 && b % n == 0 {
        assert(a / n < b / n) by (nonlinear_arith)
            requires
                a <= b,
                n > 0,
                a % n != 0,
                b % n == 0,
        ;
    }
}

} // verus!
