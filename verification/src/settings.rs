//! The integration parameters as plain values: the fixed timestep and the
//! solver's iteration counts.

use crate::scalar::Scalar;
use vstd::prelude::*;

verus! {

/// What the physics world steps with.
#[derive(Clone, Copy, Debug, PartialEq, Eq, Structural)]
pub struct StepSettings {
    /// The simulated time that one step advances, in seconds.
    pub timestep: Scalar,
    /// Iterations of the velocity solver per step.
    pub solver_iterations: usize,
    /// Further iterations that resolve friction only.
    pub friction_iterations: usize,
    /// Inner iterations of each solver iteration.
    pub internal_iterations: usize,
    /// The most substeps that continuous collision detection may split a
    /// step into.
    pub ccd_substeps: usize,
    /// The least number of bodies that the solver groups into one island.
    pub min_island_size: usize,
}

/// Bit pattern of `1.0 / 60.0`, the timestep in seconds: one frame at sixty
/// frames per second, whatever the wall clock says.
pub const TIMESTEP_BITS: u32 = 0x3C88_8889;

/// The engine's own settings, which every world of this library steps with.
pub open spec fn default_settings() -> StepSettings {
    StepSettings {
        timestep: Scalar { bits: TIMESTEP_BITS },
        solver_iterations: 4,
        friction_iterations: 4,
        internal_iterations: 1,
        ccd_substeps: 1,
        min_island_size: 128,
    }
}

} // verus!
