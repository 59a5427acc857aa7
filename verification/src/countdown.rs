//! A once-only countdown over whole nanoseconds.

use bevy::time::{Timer, TimerMode};
use std::time::Duration;
use vstd::prelude::*;

verus! {

/// Nanoseconds in one second.
pub const NANOS_PER_SECOND: u128 = 1_000_000_000;

/// The longest span a countdown can hold, in nanoseconds: `u64::MAX` seconds
/// and 999_999_999 nanoseconds, the range of `std::time::Duration`.
pub const MAX_SPAN: u128 = 18_446_744_073_709_551_615_999_999_999;

/// What a countdown holds, as mathematical values.
pub struct CountdownState {
    /// The span to count, in nanoseconds.
    pub duration: nat,
    /// The part of it that has gone by, in nanoseconds.
    pub elapsed: nat,
    /// Whether the span has been reached by a tick.
    pub finished: bool,
}

impl CountdownState {
    /// The states a countdown can be in.
    pub open spec fn wf(self) -> bool {
        &&& self.elapsed <= self.duration
        &&& self.duration <= MAX_SPAN
        &&& (self.finished ==> self.elapsed == self.duration)
    }

    /// A countdown of `duration` that has not been ticked.
    pub open spec fn fresh(duration: nat) -> CountdownState {
        CountdownState { duration, elapsed: 0, finished: false }
    }

    /// The time still to go.
    pub open spec fn remaining(self) -> nat {
        (self.duration - self.elapsed) as nat
    }

    /// The state after `delta` more nanoseconds: a finished countdown stays
    /// as it is, another one advances and stops at its duration.
    pub open spec fn tick(self, delta: nat) -> CountdownState {
        if self.finished {
            self
        } else if self.elapsed + delta >= self.duration {
            CountdownState { duration: self.duration, elapsed: self.duration, finished: true }
        } else {
            CountdownState { duration: self.duration, elapsed: self.elapsed + delta, finished: false }
        }
    }

    /// Whether the remaining time can be changed by `delta`: the result is
    /// not negative and no longer than the longest span.
    pub open spec fn can_add_time(self, delta: int) -> bool {
        0 <= self.remaining() + delta <= MAX_SPAN
    }

    /// The state after the remaining time was changed by `delta` and the
    /// countdown started again.
    pub open spec fn add_time(self, delta: int) -> CountdownState {
        CountdownState::fresh((self.remaining() + delta) as nat)
    }
}

/// A tick leaves a countdown in one of its states, with the duration it had.
pub proof fn lemma_tick_wf(state: CountdownState, delta: nat)
    requires
        state.wf(),
    ensures
        state.tick(delta).wf(),
        state.tick(delta).duration == state.duration,
{
}

/// Ticks add up: two ticks in a row do what one tick of both spans does.
pub proof fn lemma_tick_adds_up(state: CountdownState, first: nat, second: nat)
    requires
        state.wf(),
    ensures
        state.tick(first).tick(second) == state.tick(first + second),
{
}

/// Time only runs out: a tick takes from the remaining time what it spans,
/// and no more than is left.
pub proof fn lemma_tick_remaining(state: CountdownState, delta: nat)
    requires
        state.wf(),
    ensures
        state.tick(delta).remaining() == if delta >= state.remaining() {
            0
        } else {
            state.remaining() - delta
        },
        state.tick(delta).remaining() <= state.remaining(),
{
}

/// A countdown is finished after a tick exactly if it was before, or if
/// the tick spans what was left.
pub proof fn lemma_tick_finishes(state: CountdownState, delta: nat)
    requires
        state.wf(),
    ensures
        state.tick(delta).finished <==> state.finished || delta >= state.remaining(),
{
}

/// After a change of the remaining time the countdown is not finished, and
/// what remains is what remained before and the change.
pub proof fn lemma_add_time_remaining(state: CountdownState, delta: int)
    requires
        state.wf(),
        state.can_add_time(delta),
    ensures
        state.add_time(delta).wf(),
        !state.add_time(delta).finished,
        state.add_time(delta).remaining() == state.remaining() + delta,
{
}

/// The whole nanoseconds of a span given as seconds and nanoseconds.
pub open spec fn span_nanos(span: (u64, u32)) -> nat {
    (span.0 * NANOS_PER_SECOND + span.1) as nat
}

/// Runs `Timer::tick` of bevy on a once-only timer that is neither paused nor
/// finished, with the given duration and elapsed time, each as whole seconds
/// and nanoseconds below one second. Returns the timer's elapsed time and
/// its `finished` flag after the tick. The contract states the timer's
/// documented behaviour: it finishes when the elapsed time reaches the
/// duration, and then stops there.
#[verifier::external_body]
fn timer_tick_once(duration: (u64, u32), elapsed: (u64, u32), delta: (u64, u32)) -> (r: (
    (u64, u32),
    bool,
))
    requires
        duration.1 < NANOS_PER_SECOND,
        elapsed.1 < NANOS_PER_SECOND,
        delta.1 < NANOS_PER_SECOND,
    ensures
        r.0.1 < NANOS_PER_SECOND,
        r.1 == (span_nanos(elapsed) + span_nanos(delta) >= span_nanos(duration)),
        span_nanos(r.0) == if r.1 {
            span_nanos(duration)
        } else {
            span_nanos(elapsed) + span_nanos(delta)
        },
{
    let mut timer = Timer::new(Duration::new(duration.0, duration.1), TimerMode::Once);
    timer.set_elapsed(Duration::new(elapsed.0, elapsed.1));
    timer.tick(Duration::new(delta.0, delta.1));
    let after = timer.elapsed();
    ((after.as_secs(), after.subsec_nanos()), timer.finished())
}

/// Splits a span of at most `MAX_SPAN` nanoseconds into whole seconds and the
/// nanoseconds below one second.
fn split_span(nanos: u128) -> (r: (u64, u32))
    requires
        nanos <= MAX_SPAN,
    ensures
        r.1 < NANOS_PER_SECOND,
        span_nanos(r) == nanos,
{
    let secs: u128 = nanos / NANOS_PER_SECOND;
    let rest: u128 = nanos % NANOS_PER_SECOND;
    (secs as u64, rest as u32)
}

/// Joins whole seconds and nanoseconds below one second into nanoseconds.
fn join_span(span: (u64, u32)) -> (r: u128)
    requires
        span.1 < NANOS_PER_SECOND,
    ensures
        r == span_nanos(span),
        r <= MAX_SPAN,
{
    (span.0 as u128) * NANOS_PER_SECOND + (span.1 as u128)
}

/// A countdown that runs once: it advances with each tick, stops at its
/// duration and stays finished until it is started again.
#[derive(Clone, Copy, Debug, PartialEq, Eq)]
pub struct Countdown {
    duration: u128,
    elapsed: u128,
    finished: bool,
}

impl View for Countdown {
    type V = CountdownState;

    closed spec fn view(&self) -> CountdownState {
        CountdownState {
            duration: self.duration as nat,
            elapsed: self.elapsed as nat,
            finished: self.finished,
        }
    }
}

impl Countdown {
    #[verifier::type_invariant]
    closed spec fn inv(self) -> bool {
        self@.wf()
    }

    /// A countdown of `duration` nanoseconds, not yet ticked.
    pub fn new(duration: u128) -> (r: Countdown)
        requires
            duration <= MAX_SPAN,
        ensures
            r@ == CountdownState::fresh(duration as nat),
            r@.wf(),
    {
        Countdown { duration, elapsed: 0, finished: false }
    }

    /// The span this countdown counts, in nanoseconds.
    pub fn duration(&self) -> (r: u128)
        ensures
            r == self@.duration,
            self@.wf(),
    {
        proof {
            use_type_invariant(self);
        }
        self.duration
    }

    /// The time that has gone by, in nanoseconds.
    pub fn elapsed(&self) -> (r: u128)
        ensures
            r == self@.elapsed,
            self@.wf(),
    {
        proof {
            use_type_invariant(self);
        }
        self.elapsed
    }

    /// The time still to go, in nanoseconds.
    pub fn remaining(&self) -> (r: u128)
        ensures
            r == self@.remaining(),
            self@.wf(),
    {
        proof {
            use_type_invariant(self);
        }
        self.duration - self.elapsed
    }

    /// Whether a tick has reached the duration.
    pub fn finished(&self) -> (r: bool)
        ensures
            r == self@.finished,
            self@.wf(),
    {
        proof {
            use_type_invariant(self);
        }
        self.finished
    }

    /// Advances the countdown by `delta` nanoseconds.
    pub fn tick(&mut self, delta: u128)
        ensures
            final(self)@ == old(self)@.tick(delta as nat),
            final(self)@.wf(),
    {
        proof {
            use_type_invariant(&*self);
        }
        if self.finished {
            return ;
        }
        // A span beyond the longest finishes any countdown, as the longest does.
        let step: u128 = if delta > MAX_SPAN {
            MAX_SPAN
        } else {
            delta
        };
        let (after, done) = timer_tick_once(
            split_span(self.duration),
            split_span(self.elapsed),
            split_span(step),
        );
        let elapsed: u128 = join_span(after);
        *self = Countdown { duration: self.duration, elapsed, finished: done };
    }

    /// Whether `add_time` takes `delta`: whether the remaining time and
    /// `delta` add up to a span.
    pub fn can_add_time(&self, delta: i128) -> (r: bool)
        ensures
            r == self@.can_add_time(delta as int),
    {
        proof {
            use_type_invariant(self);
        }
        let left: u128 = self.duration - self.elapsed;
        if delta >= 0 {
            (delta as u128) <= MAX_SPAN - left
        } else {
            let back: u128 = ((-(delta + 1)) as u128) + 1;
            back <= left
        }
    }

    /// Changes the remaining time by `delta` nanoseconds and starts the
    /// countdown again: the new duration is the old remaining time plus
    /// `delta`, and nothing of it has gone by.
    pub fn add_time(&mut self, delta: i128)
        requires
            old(self)@.can_add_time(delta as int),
        ensures
            final(self)@ == old(self)@.add_time(delta as int),
            final(self)@.wf(),
    {
        proof {
            use_type_invariant(&*self);
        }
        let left: u128 = self.duration - self.elapsed;
        let duration: u128 = if delta >= 0 {
            left + (delta as u128)
        } else {
            let back: u128 = ((-(delta + 1)) as u128) + 1;
            left - back
        };
        *self = Countdown { duration, elapsed: 0, finished: false };
    }
}

} // verus!
