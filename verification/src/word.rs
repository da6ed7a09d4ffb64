//! Word boxes: the falling labels.

use crate::body::{BodyDesc, ColliderDesc, Pose};
use crate::geometry::{check_dense_box, dense_box_fault, GeometryError};
use crate::handle::{BodyHandle, ColliderHandle};
use crate::scalar::{zero, Scalar};
use crate::world::PhysicsWorld;
use vstd::prelude::*;

verus! {

/// Bit pattern of `20.0`, the angular damping of every word's body. It is
/// high, so that falling text resists tumbling and settles near the
/// horizontal.
pub const ANGULAR_DAMPING_BITS: u32 = 0x41A0_0000;

/// The angular damping of every word's body.
pub open spec fn angular_damping() -> Scalar {
    Scalar { bits: ANGULAR_DAMPING_BITS }
}

/// A text label that falls as a rigid box.
///
/// The box is kept by its centre and half extents, which is how the physics
/// world keeps it. Its extents, density and text never change; its centre and
/// angle are overwritten from the world after each step; each handle is set
/// once.
pub struct WordBox {
    center_x: Scalar,
    center_y: Scalar,
    half_width: Scalar,
    half_height: Scalar,
    angle: Scalar,
    density: Scalar,
    text: String,
    body_handle: Option<BodyHandle>,
    collider_handle: Option<ColliderHandle>,
}

/// A word box as a plain value.
pub struct WordView {
    pub center_x: Scalar,
    pub center_y: Scalar,
    pub half_width: Scalar,
    pub half_height: Scalar,
    pub angle: Scalar,
    pub density: Scalar,
    pub text: Seq<char>,
    pub body_handle: Option<BodyHandle>,
    pub collider_handle: Option<ColliderHandle>,
}

impl WordView {
    /// A box as it is made: not rotated and not yet in a physics world.
    pub open spec fn fresh(
        center_x: Scalar,
        center_y: Scalar,
        half_width: Scalar,
        half_height: Scalar,
        density: Scalar,
        text: Seq<char>,
    ) -> WordView {
        WordView {
            center_x,
            center_y,
            half_width,
            half_height,
            angle: zero(),
            density,
            text,
            body_handle: None,
            collider_handle: None,
        }
    }

    /// The same box with both handles set.
    pub open spec fn registered_as(self, body: BodyHandle, collider: ColliderHandle) -> WordView {
        WordView { body_handle: Some(body), collider_handle: Some(collider), ..self }
    }

    /// Where the box is.
    pub open spec fn pose(self) -> Pose {
        Pose { x: self.center_x, y: self.center_y, angle: self.angle }
    }

    /// The same box, moved to `pose`.
    pub open spec fn at(self, pose: Pose) -> WordView {
        WordView { center_x: pose.x, center_y: pose.y, angle: pose.angle, ..self }
    }

    /// The two boxes differ in their pose at most.
    pub open spec fn same_word(self, other: WordView) -> bool {
        other == self.at(other.pose())
    }

    /// The geometry and density are ones the library accepts. The centre is
    /// not looked at once the box moves: that is up to the solver.
    pub open spec fn wf(self) -> bool {
        &&& self.half_width.spec_is_positive()
        &&& self.half_height.spec_is_positive()
        &&& self.density.spec_is_positive()
    }

    /// The body that stands for this box: dynamic, at the box's centre, with
    /// the box's angle, strongly damped in rotation, and without continuous
    /// collision detection, so that an occasional overlap is put up with.
    pub open spec fn body(self) -> BodyDesc {
        BodyDesc::Dynamic {
            pose: self.pose(),
            angular_damping: angular_damping(),
            ccd_enabled: false,
        }
    }

    /// The collider that stands for this box: a box of the same size and of
    /// the word's density.
    pub open spec fn collider(self) -> ColliderDesc {
        ColliderDesc {
            half_width: self.half_width,
            half_height: self.half_height,
            density: Some(self.density),
        }
    }
}

impl View for WordBox {
    type V = WordView;

    closed spec fn view(&self) -> WordView {
        WordView {
            center_x: self.center_x,
            center_y: self.center_y,
            half_width: self.half_width,
            half_height: self.half_height,
            angle: self.angle,
            density: self.density,
            text: self.text@,
            body_handle: self.body_handle,
            collider_handle: self.collider_handle,
        }
    }
}

impl WordBox {
    /// A word box with the given centre, half extents, density and text, not
    /// rotated and not yet in a physics world; or the first fault of that
    /// geometry.
    pub fn new(
        center_x: Scalar,
        center_y: Scalar,
        half_width: Scalar,
        half_height: Scalar,
        density: Scalar,
        text: String,
    ) -> (r: Result<WordBox, GeometryError>)
        ensures
            match dense_box_fault(center_x, center_y, half_width, half_height, density) {
                Some(fault) => r matches Err(e) && e == fault,
                None => r matches Ok(word) && word@ == WordView::fresh(
                    center_x,
                    center_y,
                    half_width,
                    half_height,
                    density,
                    text@,
                ),
            },
    {
        match check_dense_box(center_x, center_y, half_width, half_height, density) {
            Err(fault) => Err(fault),
            Ok(()) => Ok(
                WordBox {
                    center_x,
                    center_y,
                    half_width,
                    half_height,
                    angle: Scalar::zero(),
                    density,
                    text,
                    body_handle: None,
                    collider_handle: None,
                },
            ),
        }
    }

    /// Describes the rigid body of this box.
    pub fn new_body(&self) -> (desc: BodyDesc)
        ensures
            desc == self@.body(),
    {
        BodyDesc::Dynamic {
            pose: Pose { x: self.center_x, y: self.center_y, angle: self.angle },
            angular_damping: Scalar::from_bits(ANGULAR_DAMPING_BITS),
            ccd_enabled: false,
        }
    }

    /// Describes the collider of this box.
    pub fn new_collider(&self) -> (desc: ColliderDesc)
        ensures
            desc == self@.collider(),
    {
        ColliderDesc {
            half_width: self.half_width,
            half_height: self.half_height,
            density: Some(self.density),
        }
    }

    /// Records the handle of the box's body. It can be done once.
    pub fn set_body_handle(&mut self, handle: BodyHandle)
        requires
            old(self)@.body_handle is None,
        ensures
            final(self)@ == (WordView { body_handle: Some(handle), ..old(self)@ }),
    {
        self.body_handle = Some(handle);
    }

    /// Records the handle of the box's collider. It can be done once.
    pub fn set_collider_handle(&mut self, handle: ColliderHandle)
        requires
            old(self)@.collider_handle is None,
        ensures
            final(self)@ == (WordView { collider_handle: Some(handle), ..old(self)@ }),
    {
        self.collider_handle = Some(handle);
    }

    /// Overwrites the box's centre and angle with the pose that `world` holds
    /// of the box's body. Nothing else of the box changes.
    pub fn update_coords(&mut self, world: &PhysicsWorld)
        requires
            old(self)@.body_handle matches Some(handle) && world.bodies().dom().contains(handle),
        ensures
            final(self)@ == old(self)@.at(world.bodies()[old(self)@.body_handle->Some_0].pose),
    {
        match self.body_handle {
            Some(handle) => {
                let pose = world.pose(handle);
                self.center_x = pose.x;
                self.center_y = pose.y;
                self.angle = pose.angle;
            },
            None => {},
        }
    }

    /// Horizontal position of the centre.
    pub fn center_x(&self) -> (r: Scalar)
        ensures
            r == self@.center_x,
    {
        self.center_x
    }

    /// Vertical position of the centre.
    pub fn center_y(&self) -> (r: Scalar)
        ensures
            r == self@.center_y,
    {
        self.center_y
    }

    /// Half of the width.
    pub fn half_width(&self) -> (r: Scalar)
        ensures
            r == self@.half_width,
    {
        self.half_width
    }

    /// Half of the height.
    pub fn half_height(&self) -> (r: Scalar)
        ensures
            r == self@.half_height,
    {
        self.half_height
    }

    /// Rotation angle in radians.
    pub fn angle(&self) -> (r: Scalar)
        ensures
            r == self@.angle,
    {
        self.angle
    }

    /// Mass per unit of area.
    pub fn density(&self) -> (r: Scalar)
        ensures
            r == self@.density,
    {
        self.density
    }

    /// The label's text.
    pub fn text(&self) -> (r: &String)
        ensures
            r@ == self@.text,
    {
        &self.text
    }

    /// The handle of the box's body, once it is set.
    pub fn body_handle(&self) -> (r: Option<BodyHandle>)
        ensures
            r == self@.body_handle,
    {
        self.body_handle
    }

    /// The handle of the box's collider, once it is set.
    pub fn collider_handle(&self) -> (r: Option<ColliderHandle>)
        ensures
            r == self@.collider_handle,
    {
        self.collider_handle
    }
}

} // verus!
