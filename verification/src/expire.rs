//! Things that last for a while: a lifetime that runs out, and the mark
//! that it has.

use crate::countdown::{Countdown, CountdownState, MAX_SPAN};
use vstd::prelude::*;

verus! {

/// The lifetime of a thing: a countdown that is ticked until it is over.
#[derive(Clone, Copy, Debug, PartialEq, Eq)]
pub struct Expire(pub Countdown);

/// The mark of a thing whose lifetime is over.
#[derive(Clone, Copy, Debug, PartialEq, Eq)]
pub struct Expired;

impl View for Expire {
    type V = CountdownState;

    open spec fn view(&self) -> CountdownState {
        self.0@
    }
}

impl Expire {
    /// A lifetime of `nanos` nanoseconds.
    pub fn new(nanos: u128) -> (r: Expire)
        requires
            nanos <= MAX_SPAN,
        ensures
            r@ == CountdownState::fresh(nanos as nat),
    {
        Expire(Countdown::new(nanos))
    }

    /// Whether the lifetime can be changed by `nanos` nanoseconds: whether
    /// the time that is left and `nanos` add up to a span.
    pub fn can_add_time(&self, nanos: i128) -> (r: bool)
        ensures
            r == self@.can_add_time(nanos as int),
    {
        self.0.can_add_time(nanos)
    }

    /// Changes the lifetime by `nanos` nanoseconds: it starts again with the
    /// time that was left, changed by that amount.
    pub fn add_time(&mut self, nanos: i128)
        requires
            old(self)@.can_add_time(nanos as int),
        ensures
            final(self)@ == old(self)@.add_time(nanos as int),
    {
        self.0.add_time(nanos);
    }

    /// Lets `delta` nanoseconds go by. Returns the mark `Expired` when the
    /// lifetime is over after them, and nothing while time is left.
    pub fn tick(&mut self, delta: u128) -> (r: Option<Expired>)
        ensures
            final(self)@ == old(self)@.tick(delta as nat),
            r.is_some() == final(self)@.finished,
    {
        self.0.tick(delta);
        if self.0.finished() {
            Some(Expired)
        } else {
            None
        }
    }
}

} // verus!
