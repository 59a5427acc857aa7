//! Particle effects of the overlay: the layers they are drawn on, and the
//! fireworks.

use vstd::prelude::*;

pub mod fireworks;

verus! {

/// The render layer of the particle effects.
pub const PARTICLE_LAYER: usize = 2;

/// The render layer of the interface.
pub const UI_LAYER: usize = 1;

} // verus!
