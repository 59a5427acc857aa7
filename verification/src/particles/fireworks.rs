//! Fireworks: what a request for them does to the rocket that is there, or
//! is not.

use crate::countdown::{CountdownState, MAX_SPAN};
use crate::expire::Expire;
use vstd::prelude::*;

verus! {

/// A request for fireworks that last a number of nanoseconds.
#[derive(Clone, Copy, Debug, PartialEq, Eq)]
pub struct CreateFireworks(pub i128);

impl CreateFireworks {
    /// A request for fireworks that last `duration` nanoseconds.
    pub fn new(duration: i128) -> (r: CreateFireworks)
        ensures
            r.0 == duration,
    {
        CreateFireworks(duration)
    }
}

/// The rocket that a request finds.
#[derive(Clone, Copy, Debug, PartialEq, Eq)]
pub enum Rocket {
    /// No rocket was made yet.
    Missing,
    /// A rocket is there without a lifetime: the one it had is over.
    Spent,
    /// A rocket is there with time left on its lifetime.
    Burning(Expire),
}

/// What a request for fireworks leads to.
#[derive(Clone, Copy, Debug, PartialEq, Eq)]
pub enum FireworksPlan {
    /// A rocket, its sparkle trail and its trails are made, each with this
    /// lifetime.
    Launch(Expire),
    /// The rocket that is there emits again and gets this lifetime.
    Relight(Expire),
    /// The rocket that is there emits on, and this is its lifetime from
    /// now on.
    Extend(Expire),
}

/// Whether a request can be met for the rocket it finds: fireworks that are
/// made or lit again need a duration that is not negative, and a burning
/// rocket needs the time it has left and the duration to add up to a span.
pub open spec fn can_create(duration: int, rocket: Rocket) -> bool {
    match rocket {
        Rocket::Burning(expire) => expire@.can_add_time(duration),
        _ => 0 <= duration <= MAX_SPAN,
    }
}

/// Whether `create_effect` takes a request for the rocket it finds.
pub fn creatable(event: &CreateFireworks, rocket: Rocket) -> (r: bool)
    ensures
        r == can_create(event.0 as int, rocket),
{
    match rocket {
        Rocket::Burning(expire) => expire.can_add_time(event.0),
        _ => 0 <= event.0 && event.0 as u128 <= MAX_SPAN,
    }
}

/// Decides what a request for fireworks does. Without a rocket the three
/// effects are made, each with the duration asked for as its lifetime. A
/// rocket that is there is not made again: it emits, with the duration as
/// its new lifetime if the old one is over, and else with the duration
/// added to the time it had left.
pub fn create_effect(event: &CreateFireworks, rocket: Rocket) -> (plan: FireworksPlan)
    requires
        can_create(event.0 as int, rocket),
    ensures
        match rocket {
            Rocket::Missing => plan matches FireworksPlan::Launch(expire) && expire@
                == CountdownState::fresh(event.0 as nat),
            Rocket::Spent => plan matches FireworksPlan::Relight(expire) && expire@
                == CountdownState::fresh(event.0 as nat),
            Rocket::Burning(old) => plan matches FireworksPlan::Extend(expire) && expire@
                == old@.add_time(event.0 as int),
        },
{
    match rocket {
        Rocket::Missing => FireworksPlan::Launch(Expire::new(event.0 as u128)),
        Rocket::Spent => FireworksPlan::Relight(Expire::new(event.0 as u128)),
        Rocket::Burning(expire) => {
            let mut expire = expire;
            expire.add_time(event.0);
            FireworksPlan::Extend(expire)
        },
    }
}

} // verus!
