//! Which boxes the library accepts.
//!
//! A box is given by its centre and its half extents. The centre must be
//! finite and each half extent finite and greater than zero; a word box also
//! carries a density, which must be finite and greater than zero. Anything
//! else is rejected before it reaches the physics world.

use crate::scalar::Scalar;
use vstd::prelude::*;

verus! {

/// Why a box was rejected.
#[derive(Clone, Copy, Debug, PartialEq, Eq, Structural)]
pub enum GeometryError {
    /// A coordinate of the centre is infinite or not a number.
    CenterNotFinite,
    /// The half width is zero, negative, infinite or not a number.
    WidthNotPositive,
    /// The half height is zero, negative, infinite or not a number.
    HeightNotPositive,
    /// The density is zero, negative, infinite or not a number.
    DensityNotPositive,
}

impl GeometryError {
    /// The fault in words.
    pub open spec fn spec_message(self) -> Seq<char> {
        match self {
            GeometryError::CenterNotFinite => "the position is not finite"@,
            GeometryError::WidthNotPositive => "the width is not positive"@,
            GeometryError::HeightNotPositive => "the height is not positive"@,
            GeometryError::DensityNotPositive => "the density is not positive"@,
        }
    }

    /// The fault in words.
    pub fn message(&self) -> (text: &'static str)
        ensures
            text@ == self.spec_message(),
    {
        match self {
            GeometryError::CenterNotFinite => "the position is not finite",
            GeometryError::WidthNotPositive => "the width is not positive",
            GeometryError::HeightNotPositive => "the height is not positive",
            GeometryError::DensityNotPositive => "the density is not positive",
        }
    }
}

/// The first fault of a box, if it has one: the centre is looked at first,
/// then the width, then the height.
pub open spec fn box_fault(
    center_x: Scalar,
    center_y: Scalar,
    half_width: Scalar,
    half_height: Scalar,
) -> Option<GeometryError> {
    if !center_x.spec_is_finite() || !center_y.spec_is_finite() {
        Some(GeometryError::CenterNotFinite)
    } else if !half_width.spec_is_positive() {
        Some(GeometryError::WidthNotPositive)
    } else if !half_height.spec_is_positive() {
        Some(GeometryError::HeightNotPositive)
    } else {
        None
    }
}

/// The first fault of a box with a density: the box is looked at first.
pub open spec fn dense_box_fault(
    center_x: Scalar,
    center_y: Scalar,
    half_width: Scalar,
    half_height: Scalar,
    density: Scalar,
) -> Option<GeometryError> {
    if box_fault(center_x, center_y, half_width, half_height) is Some {
        box_fault(center_x, center_y, half_width, half_height)
    } else if !density.spec_is_positive() {
        Some(GeometryError::DensityNotPositive)
    } else {
        None
    }
}

/// Accepts a box or names its first fault.
pub fn check_box(center_x: Scalar, center_y: Scalar, half_width: Scalar, half_height: Scalar) -> (r:
    Result<(), GeometryError>)
    ensures
        match box_fault(center_x, center_y, half_width, half_height) {
            Some(fault) => r == Err::<(), GeometryError>(fault),
            None => r is Ok,
        },
{
    if !center_x.is_finite() || !center_y.is_finite() {
        Err(GeometryError::CenterNotFinite)
    } else if !half_width.is_positive() {
        Err(GeometryError::WidthNotPositive)
    } else if !half_height.is_positive() {
        Err(GeometryError::HeightNotPositive)
    } else {
        Ok(())
    }
}

/// Accepts a box with a density or names its first fault.
pub fn check_dense_box(
    center_x: Scalar,
    center_y: Scalar,
    half_width: Scalar,
    half_height: Scalar,
    density: Scalar,
) -> (r: Result<(), GeometryError>)
    ensures
        match dense_box_fault(center_x, center_y, half_width, half_height, density) {
            Some(fault) => r == Err::<(), GeometryError>(fault),
            None => r is Ok,
        },
{
    match check_box(center_x, center_y, half_width, half_height) {
        Err(fault) => Err(fault),
        Ok(()) => {
            if density.is_positive() {
                Ok(())
            } else {
                Err(GeometryError::DensityNotPositive)
            }
        },
    }
}

} // verus!
