//! Bodies and colliders as plain values: what the physics world holds of
//! them, and the descriptions from which the library has them made.

use crate::handle::BodyHandle;
use crate::scalar::{zero, Scalar};
use vstd::prelude::*;

verus! {

/// Position and orientation of a body.
#[derive(Clone, Copy, Debug, PartialEq, Eq, Structural)]
pub struct Pose {
    /// Horizontal translation of the body's origin.
    pub x: Scalar,
    /// Vertical translation of the body's origin.
    pub y: Scalar,
    /// Rotation angle in radians.
    pub angle: Scalar,
}

/// What the world holds of one rigid body.
pub struct BodyState {
    /// The body is immovable; otherwise it is dynamic.
    pub fixed: bool,
    /// Where the body is. The angle is the one that the engine derives from
    /// the rotation it stores.
    pub pose: Pose,
    /// Angular damping coefficient.
    pub angular_damping: Scalar,
    /// Continuous collision detection is switched on.
    pub ccd_enabled: bool,
}

/// What the world holds of one collider.
pub struct ColliderState {
    /// The body that the collider is attached to.
    pub parent: BodyHandle,
    /// Half of the box's width.
    pub half_width: Scalar,
    /// Half of the box's height.
    pub half_height: Scalar,
    /// Mass per unit of area.
    pub density: Scalar,
}

/// A rigid body to be made.
#[derive(Clone, Copy, Debug, PartialEq, Eq, Structural)]
pub enum BodyDesc {
    /// An immovable body: it takes part in collisions and is never displaced.
    Fixed { pose: Pose },
    /// A body that moves under gravity and contacts.
    Dynamic { pose: Pose, angular_damping: Scalar, ccd_enabled: bool },
}

/// A box-shaped collider to be made, centred on the body it is attached to.
#[derive(Clone, Copy, Debug, PartialEq, Eq, Structural)]
pub struct ColliderDesc {
    /// Half of the box's width.
    pub half_width: Scalar,
    /// Half of the box's height.
    pub half_height: Scalar,
    /// Mass per unit of area; `None` leaves it to the engine.
    pub density: Option<Scalar>,
}

impl BodyDesc {
    /// The pose that the body is made with.
    pub open spec fn pose(self) -> Pose {
        match self {
            BodyDesc::Fixed { pose } => pose,
            BodyDesc::Dynamic { pose, .. } => pose,
        }
    }

    /// `state` is what the world holds of a body just made from this
    /// description. A rotation angle other than `0.0` is not compared: the
    /// engine stores a rotation, not the angle it was given.
    pub open spec fn describes(self, state: BodyState) -> bool {
        &&& state.pose.x == self.pose().x
        &&& state.pose.y == self.pose().y
        &&& self.pose().angle == zero() ==> state.pose.angle == self.pose().angle
        &&& match self {
            BodyDesc::Fixed { .. } => state.fixed,
            BodyDesc::Dynamic { angular_damping, ccd_enabled, .. } => {
                &&& !state.fixed
                &&& state.angular_damping == angular_damping
                &&& state.ccd_enabled == ccd_enabled
            },
        }
    }
}

impl ColliderDesc {
    /// `state` is what the world holds of a collider just made from this
    /// description and attached to `parent`.
    pub open spec fn describes(self, parent: BodyHandle, state: ColliderState) -> bool {
        &&& state.parent == parent
        &&& state.half_width == self.half_width
        &&& state.half_height == self.half_height
        &&& self.density matches Some(density) ==> state.density == density
    }
}

} // verus!
