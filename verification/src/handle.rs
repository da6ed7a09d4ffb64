//! Handles: opaque keys into the physics world.
//!
//! A handle is the pair of a slot index and a generation that the engine's
//! arena gave out on insertion. It is a key, not a reference: it can be copied
//! and compared, and it stays valid for as long as its entry is not removed.

use vstd::prelude::*;

verus! {

/// The key of a rigid body in the physics world.
#[derive(Clone, Copy, Debug, PartialEq, Eq, Structural)]
pub struct BodyHandle {
    pub index: u32,
    pub generation: u32,
}

/// The key of a collider in the physics world.
#[derive(Clone, Copy, Debug, PartialEq, Eq, Structural)]
pub struct ColliderHandle {
    pub index: u32,
    pub generation: u32,
}

} // verus!
