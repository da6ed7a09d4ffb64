//! Walls: static obstacles.

use crate::body::{BodyDesc, ColliderDesc, Pose};
use crate::geometry::{box_fault, check_box, GeometryError};
use crate::scalar::{zero, Scalar};
use vstd::prelude::*;

verus! {

/// An immovable box with zero rotation, given by its centre and half extents.
#[derive(Clone, Copy, Debug, PartialEq, Eq, Structural)]
pub struct Wall {
    pub center_x: Scalar,
    pub center_y: Scalar,
    pub half_width: Scalar,
    pub half_height: Scalar,
}

impl Wall {
    /// The body that stands for this wall: fixed, at the wall's centre, not
    /// rotated.
    pub open spec fn body(self) -> BodyDesc {
        BodyDesc::Fixed { pose: Pose { x: self.center_x, y: self.center_y, angle: zero() } }
    }

    /// The collider that stands for this wall: a box of the wall's size, its
    /// density left to the engine.
    pub open spec fn collider(self) -> ColliderDesc {
        ColliderDesc { half_width: self.half_width, half_height: self.half_height, density: None }
    }

    /// A wall with the given centre and half extents, or the first fault of
    /// that geometry.
    pub fn new(center_x: Scalar, center_y: Scalar, half_width: Scalar, half_height: Scalar) -> (r:
        Result<Wall, GeometryError>)
        ensures
            match box_fault(center_x, center_y, half_width, half_height) {
                Some(fault) => r == Err::<Wall, GeometryError>(fault),
                None => r == Ok::<Wall, GeometryError>(
                    Wall { center_x, center_y, half_width, half_height },
                ),
            },
    {
        match check_box(center_x, center_y, half_width, half_height) {
            Err(fault) => Err(fault),
            Ok(()) => Ok(Wall { center_x, center_y, half_width, half_height }),
        }
    }

    /// Describes the wall's rigid body.
    pub fn new_body(&self) -> (desc: BodyDesc)
        ensures
            desc == self.body(),
    {
        BodyDesc::Fixed {
            pose: Pose { x: self.center_x, y: self.center_y, angle: Scalar::zero() },
        }
    }

    /// Describes the wall's collider.
    pub fn new_collider(&self) -> (desc: ColliderDesc)
        ensures
            desc == self.collider(),
    {
        ColliderDesc { half_width: self.half_width, half_height: self.half_height, density: None }
    }
}

} // verus!
