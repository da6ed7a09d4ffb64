//! The boundary to the physics engine.
//!
//! The solver is not part of this library. It is called through the items
//! below, none of which is proved: each states what the library relies on,
//! namely which bodies and colliders the engine's sets hold, under which
//! handles, which handles the engine's other parts keep from earlier steps,
//! and what a step leaves alone. Everything else about a step (where the
//! dynamic bodies end up) is left open.
//!
//! The engine's parts are separate values that keep handles into one
//! another. A step looks up every handle it keeps and panics on one that is
//! not there, so the parts handed to a step must fit together.

use crate::body::{BodyState, ColliderState, Pose};
use crate::handle::{BodyHandle, ColliderHandle};
use crate::scalar::{Scalar, ZERO_BITS};
use crate::settings::{default_settings, StepSettings};
use rapier2d::dynamics::{
    CCDSolver, ImpulseJointSet, IntegrationParameters, IslandManager, MultibodyJointSet,
    RigidBodyBuilder, RigidBodyHandle, RigidBodySet,
};
use rapier2d::geometry::{BroadPhase, ColliderBuilder, ColliderSet, NarrowPhase};
use rapier2d::math::{Real, Vector};
use rapier2d::pipeline::PhysicsPipeline;
use vstd::prelude::*;

verus! {

/// The engine's arena of rigid bodies.
#[verifier::external_type_specification]
#[verifier::external_body]
pub struct ExRigidBodySet(rapier2d::dynamics::RigidBodySet);

/// The engine's arena of colliders.
#[verifier::external_type_specification]
#[verifier::external_body]
pub struct ExColliderSet(rapier2d::geometry::ColliderSet);

/// The engine's stepping pipeline and its work buffers.
#[verifier::external_type_specification]
#[verifier::external_body]
pub struct ExPhysicsPipeline(rapier2d::pipeline::PhysicsPipeline);

/// Timestep and solver iteration counts.
#[verifier::external_type_specification]
#[verifier::external_body]
pub struct ExIntegrationParameters(rapier2d::dynamics::IntegrationParameters);

/// The engine's record of which bodies are awake.
#[verifier::external_type_specification]
#[verifier::external_body]
pub struct ExIslandManager(rapier2d::dynamics::IslandManager);

/// The engine's approximate collision detection.
#[verifier::external_type_specification]
#[verifier::external_body]
pub struct ExBroadPhase(rapier2d::geometry::BroadPhase);

/// The engine's exact collision detection.
#[verifier::external_type_specification]
#[verifier::external_body]
pub struct ExNarrowPhase(rapier2d::geometry::NarrowPhase);

/// The engine's impulse joints; this library makes none.
#[verifier::external_type_specification]
#[verifier::external_body]
pub struct ExImpulseJointSet(rapier2d::dynamics::ImpulseJointSet);

/// The engine's multibody joints; this library makes none.
#[verifier::external_type_specification]
#[verifier::external_body]
pub struct ExMultibodyJointSet(rapier2d::dynamics::MultibodyJointSet);

/// The engine's continuous collision detection.
#[verifier::external_type_specification]
#[verifier::external_body]
pub struct ExCCDSolver(rapier2d::dynamics::CCDSolver);

/// The bodies that a body set holds, by handle.
pub uninterp spec fn body_states(bodies: RigidBodySet) -> Map<BodyHandle, BodyState>;

/// The colliders that a collider set holds, by handle.
pub uninterp spec fn collider_states(colliders: ColliderSet) -> Map<ColliderHandle, ColliderState>;

/// The island manager's step stamp, which the solver raises by one each time
/// it builds the islands of a step. The addition is unchecked: at the
/// greatest stamp a step may panic.
pub uninterp spec fn step_stamp(islands: IslandManager) -> u32;

/// The bodies that an island manager keeps in its active sets.
pub uninterp spec fn active_bodies(islands: IslandManager) -> Set<BodyHandle>;

/// The colliders that the bodies of a body set list as attached to them.
pub uninterp spec fn attached_colliders(bodies: RigidBodySet) -> Set<ColliderHandle>;

/// The colliders that a broad phase keeps a proxy of.
pub uninterp spec fn tracked_colliders(broad_phase: BroadPhase) -> Set<ColliderHandle>;

/// The colliders that a narrow phase keeps in its interaction graphs.
pub uninterp spec fn paired_colliders(narrow_phase: NarrowPhase) -> Set<ColliderHandle>;

/// The bodies that the joints of an impulse joint set join.
pub uninterp spec fn joined_bodies(joints: ImpulseJointSet) -> Set<BodyHandle>;

/// The bodies that the joints of a multibody joint set link.
pub uninterp spec fn linked_bodies(joints: MultibodyJointSet) -> Set<BodyHandle>;

/// The engine's parts fit together: every handle that one of them keeps is
/// held by the set it points into. A collider's parent is a body of the body
/// set; what the bodies list as attached, and what the two phases keep, are
/// colliders of the collider set; what the island manager holds as active,
/// and what the joints join, are bodies of the body set.
pub open spec fn parts_fit(
    bodies: RigidBodySet,
    colliders: ColliderSet,
    islands: IslandManager,
    broad_phase: BroadPhase,
    narrow_phase: NarrowPhase,
    impulse_joints: ImpulseJointSet,
    multibody_joints: MultibodyJointSet,
) -> bool {
    &&& forall|c: ColliderHandle| #[trigger]
        collider_states(colliders).dom().contains(c) ==> body_states(bodies).dom().contains(
            collider_states(colliders)[c].parent,
        )
    &&& attached_colliders(bodies).subset_of(collider_states(colliders).dom())
    &&& tracked_colliders(broad_phase).subset_of(collider_states(colliders).dom())
    &&& paired_colliders(narrow_phase).subset_of(collider_states(colliders).dom())
    &&& active_bodies(islands).subset_of(body_states(bodies).dom())
    &&& joined_bodies(impulse_joints).subset_of(body_states(bodies).dom())
    &&& linked_bodies(multibody_joints).subset_of(body_states(bodies).dom())
}

/// What the integration parameters hold of the timestep and the iteration
/// counts.
pub uninterp spec fn integration_settings(parameters: IntegrationParameters) -> StepSettings;

/// `after` holds every body of `before`, unchanged, and one more under `handle`.
pub open spec fn body_added(
    before: Map<BodyHandle, BodyState>,
    after: Map<BodyHandle, BodyState>,
    handle: BodyHandle,
) -> bool {
    &&& !before.dom().contains(handle)
    &&& after.dom() == before.dom().insert(handle)
    &&& forall|h: BodyHandle| #[trigger] before.dom().contains(h) ==> after[h] == before[h]
}

/// `after` holds every collider of `before`, unchanged, and one more under `handle`.
pub open spec fn collider_added(
    before: Map<ColliderHandle, ColliderState>,
    after: Map<ColliderHandle, ColliderState>,
    handle: ColliderHandle,
) -> bool {
    &&& !before.dom().contains(handle)
    &&& after.dom() == before.dom().insert(handle)
    &&& forall|h: ColliderHandle| #[trigger] before.dom().contains(h) ==> after[h] == before[h]
}

/// What one step may do to the bodies: none enters or leaves, each keeps its
/// kind, its damping and its detection flag, and a fixed body keeps its pose.
pub open spec fn bodies_stepped(
    before: Map<BodyHandle, BodyState>,
    after: Map<BodyHandle, BodyState>,
) -> bool {
    &&& after.dom() == before.dom()
    &&& forall|h: BodyHandle| #[trigger]
        before.dom().contains(h) ==> {
            &&& after[h].fixed == before[h].fixed
            &&& after[h].angular_damping == before[h].angular_damping
            &&& after[h].ccd_enabled == before[h].ccd_enabled
            &&& before[h].fixed ==> after[h].pose == before[h].pose
        }
}

/// `RigidBodySet::new`: the new set holds no body, and so none that lists a
/// collider.
pub assume_specification[ RigidBodySet::new ]() -> (bodies: RigidBodySet)
    ensures
        body_states(bodies).dom() == Set::<BodyHandle>::empty(),
        attached_colliders(bodies) == Set::<ColliderHandle>::empty(),
;

/// `ColliderSet::new`: the new set holds no collider.
pub assume_specification[ ColliderSet::new ]() -> (colliders: ColliderSet)
    ensures
        collider_states(colliders).dom() == Set::<ColliderHandle>::empty(),
;

/// `PhysicsPipeline::new`: nothing is claimed of the pipeline's buffers.
pub assume_specification[ PhysicsPipeline::new ]() -> (pipeline: PhysicsPipeline)
;

/// `IntegrationParameters::default`: a timestep of `1.0 / 60.0`, four solver
/// iterations, four friction iterations, one internal iteration, one substep
/// at most, islands of 128 bodies at least.
pub assume_specification[ <IntegrationParameters as Default>::default ]() -> (parameters:
    IntegrationParameters)
    ensures
        integration_settings(parameters) == default_settings(),
;

/// `IslandManager::new`: the step stamp starts at 0 and the active sets are
/// empty.
pub assume_specification[ IslandManager::new ]() -> (islands: IslandManager)
    ensures
        step_stamp(islands) == 0,
        active_bodies(islands) == Set::<BodyHandle>::empty(),
;

/// `BroadPhase::new`: the new broad phase has no proxy.
pub assume_specification[ BroadPhase::new ]() -> (broad_phase: BroadPhase)
    ensures
        tracked_colliders(broad_phase) == Set::<ColliderHandle>::empty(),
;

/// `NarrowPhase::new`: the graphs of the new narrow phase are empty.
pub assume_specification[ NarrowPhase::new ]() -> (narrow_phase: NarrowPhase)
    ensures
        paired_colliders(narrow_phase) == Set::<ColliderHandle>::empty(),
;

/// `ImpulseJointSet::new`: the new set has no joint.
pub assume_specification[ ImpulseJointSet::new ]() -> (joints: ImpulseJointSet)
    ensures
        joined_bodies(joints) == Set::<BodyHandle>::empty(),
;

/// `MultibodyJointSet::new`: the new set has no joint.
pub assume_specification[ MultibodyJointSet::new ]() -> (joints: MultibodyJointSet)
    ensures
        linked_bodies(joints) == Set::<BodyHandle>::empty(),
;

/// `CCDSolver::new`: nothing is claimed; the solver rebuilds what it keeps
/// from the sets it is handed, each time it is used.
pub assume_specification[ CCDSolver::new ]() -> (solver: CCDSolver)
;

/// `RigidBodyBuilder::fixed` with `translation`, `rotation` and `build`, then
/// `RigidBodySet::insert`. Claimed: the set gives out a handle it did not
/// hold and keeps its other bodies as they were; the new body lists no
/// collider; it is fixed and
/// stands at the given translation; built with the angle `0.0` it reads back
/// that angle (the stored rotation is then cosine 1 and sine 0).
#[verifier::external_body]
pub(crate) fn insert_fixed_body(bodies: &mut RigidBodySet, pose: Pose) -> (handle: BodyHandle)
    ensures
        body_added(body_states(*old(bodies)), body_states(*final(bodies)), handle),
        attached_colliders(*final(bodies)) == attached_colliders(*old(bodies)),
        body_states(*final(bodies))[handle].fixed,
        body_states(*final(bodies))[handle].pose.x == pose.x,
        body_states(*final(bodies))[handle].pose.y == pose.y,
        pose.angle.bits == ZERO_BITS ==> body_states(*final(bodies))[handle].pose.angle
            == pose.angle,
{
    let translation = Vector::new(Real::from_bits(pose.x.bits), Real::from_bits(pose.y.bits));
    let angle = Real::from_bits(pose.angle.bits);
    let body = RigidBodyBuilder::fixed().translation(translation).rotation(angle).build();
    let (index, generation) = bodies.insert(body).into_raw_parts();
    BodyHandle { index, generation }
}

/// `RigidBodyBuilder::dynamic` with `translation`, `rotation`,
/// `angular_damping`, `ccd_enabled` and `build`, then `RigidBodySet::insert`.
/// Claimed: as for a fixed body, but the new body is dynamic and carries the
/// given damping and detection flag.
#[verifier::external_body]
pub(crate) fn insert_dynamic_body(
    bodies: &mut RigidBodySet,
    pose: Pose,
    angular_damping: Scalar,
    ccd_enabled: bool,
) -> (handle: BodyHandle)
    ensures
        body_added(body_states(*old(bodies)), body_states(*final(bodies)), handle),
        attached_colliders(*final(bodies)) == attached_colliders(*old(bodies)),
        !body_states(*final(bodies))[handle].fixed,
        body_states(*final(bodies))[handle].pose.x == pose.x,
        body_states(*final(bodies))[handle].pose.y == pose.y,
        pose.angle.bits == ZERO_BITS ==> body_states(*final(bodies))[handle].pose.angle
            == pose.angle,
        body_states(*final(bodies))[handle].angular_damping == angular_damping,
        body_states(*final(bodies))[handle].ccd_enabled == ccd_enabled,
{
    let translation = Vector::new(Real::from_bits(pose.x.bits), Real::from_bits(pose.y.bits));
    let body = RigidBodyBuilder::dynamic()
        .translation(translation)
        .rotation(Real::from_bits(pose.angle.bits))
        .angular_damping(Real::from_bits(angular_damping.bits))
        .ccd_enabled(ccd_enabled)
        .build();
    let (index, generation) = bodies.insert(body).into_raw_parts();
    BodyHandle { index, generation }
}

/// `ColliderBuilder::cuboid`, then `ColliderSet::insert_with_parent`, which
/// panics when the body set does not hold the parent. Claimed: the collider
/// set gives out a handle it did not hold and keeps its other colliders; the
/// new collider is attached to `parent` and has the given half extents; the
/// bodies stay as they were, but that the parent now lists the new collider.
/// Its density is the engine's default and is not claimed.
#[verifier::external_body]
pub(crate) fn insert_cuboid(
    colliders: &mut ColliderSet,
    bodies: &mut RigidBodySet,
    parent: BodyHandle,
    half_width: Scalar,
    half_height: Scalar,
) -> (handle: ColliderHandle)
    requires
        body_states(*old(bodies)).dom().contains(parent),
    ensures
        collider_added(
            collider_states(*old(colliders)),
            collider_states(*final(colliders)),
            handle,
        ),
        collider_states(*final(colliders))[handle].parent == parent,
        collider_states(*final(colliders))[handle].half_width == half_width,
        collider_states(*final(colliders))[handle].half_height == half_height,
        body_states(*final(bodies)) == body_states(*old(bodies)),
        attached_colliders(*final(bodies)) == attached_colliders(*old(bodies)).insert(handle),
{
    let half_extents = (Real::from_bits(half_width.bits), Real::from_bits(half_height.bits));
    let builder = ColliderBuilder::cuboid(half_extents.0, half_extents.1);
    let parent = RigidBodyHandle::from_raw_parts(parent.index, parent.generation);
    let handle = colliders.insert_with_parent(builder, parent, bodies);
    let (index, generation) = handle.into_raw_parts();
    ColliderHandle { index, generation }
}

/// `ColliderBuilder::cuboid` with `density` and `build`, then
/// `ColliderSet::insert_with_parent`. Claimed: as for `insert_cuboid`, and the
/// new collider has the given density.
#[verifier::external_body]
pub(crate) fn insert_dense_cuboid(
    colliders: &mut ColliderSet,
    bodies: &mut RigidBodySet,
    parent: BodyHandle,
    half_width: Scalar,
    half_height: Scalar,
    density: Scalar,
) -> (handle: ColliderHandle)
    requires
        body_states(*old(bodies)).dom().contains(parent),
    ensures
        collider_added(
            collider_states(*old(colliders)),
            collider_states(*final(colliders)),
            handle,
        ),
        collider_states(*final(colliders))[handle].parent == parent,
        collider_states(*final(colliders))[handle].half_width == half_width,
        collider_states(*final(colliders))[handle].half_height == half_height,
        collider_states(*final(colliders))[handle].density == density,
        body_states(*final(bodies)) == body_states(*old(bodies)),
        attached_colliders(*final(bodies)) == attached_colliders(*old(bodies)).insert(handle),
{
    let half_extents = (Real::from_bits(half_width.bits), Real::from_bits(half_height.bits));
    let collider = ColliderBuilder::cuboid(half_extents.0, half_extents.1)
        .density(Real::from_bits(density.bits))
        .build();
    let parent = RigidBodyHandle::from_raw_parts(parent.index, parent.generation);
    let handle = colliders.insert_with_parent(collider, parent, bodies);
    let (index, generation) = handle.into_raw_parts();
    ColliderHandle { index, generation }
}

/// Indexing a `RigidBodySet` by handle, which panics when the set does not
/// hold it, then `RigidBody::translation` and the angle of
/// `RigidBody::rotation`. Claimed: the pose read is the one the set holds.
#[verifier::external_body]
pub(crate) fn read_pose(bodies: &RigidBodySet, handle: BodyHandle) -> (pose: Pose)
    requires
        body_states(*bodies).dom().contains(handle),
    ensures
        pose == body_states(*bodies)[handle].pose,
{
    let body = &bodies[RigidBodyHandle::from_raw_parts(handle.index, handle.generation)];
    let translation = body.translation();
    Pose {
        x: Scalar { bits: translation.x.to_bits() },
        y: Scalar { bits: translation.y.to_bits() },
        angle: Scalar { bits: body.rotation().angle().to_bits() },
    }
}

/// The fields `dt`, `num_solver_iterations`,
/// `num_additional_friction_iterations`, `num_internal_pgs_iterations`,
/// `max_ccd_substeps` and `min_island_size` of `IntegrationParameters`.
/// Claimed: what is read is what the parameters hold.
#[verifier::external_body]
pub(crate) fn read_settings(parameters: &IntegrationParameters) -> (settings: StepSettings)
    ensures
        settings == integration_settings(*parameters),
{
    StepSettings {
        timestep: Scalar { bits: parameters.dt.to_bits() },
        solver_iterations: parameters.num_solver_iterations.get(),
        friction_iterations: parameters.num_additional_friction_iterations,
        internal_iterations: parameters.num_internal_pgs_iterations,
        ccd_substeps: parameters.max_ccd_substeps,
        min_island_size: parameters.min_island_size,
    }
}

/// `PhysicsPipeline::step`, with no query pipeline, hooks or event handler.
/// It panics on a minimum island size of 0, on a handle that one of the parts
/// keeps and its set does not hold, and, where additions are checked, on the
/// greatest step stamp; `requires` leaves these out. With one substep at most
/// it builds the islands once. Claimed: the stamp is one more than before;
/// the parts still fit together; the step neither adds nor removes a body or
/// a collider; a body keeps its kind, damping and detection flag; a fixed
/// body keeps its pose (the step writes positions of the island manager's
/// active dynamic and kinematic bodies only); colliders keep their parent,
/// shape and density, and bodies their list of colliders. Nothing is claimed
/// of where the dynamic bodies are afterwards.
#[verifier::external_body]
pub(crate) fn step_pipeline(
    pipeline: &mut PhysicsPipeline,
    gravity_x: Scalar,
    gravity_y: Scalar,
    parameters: &IntegrationParameters,
    islands: &mut IslandManager,
    broad_phase: &mut BroadPhase,
    narrow_phase: &mut NarrowPhase,
    bodies: &mut RigidBodySet,
    colliders: &mut ColliderSet,
    impulse_joints: &mut ImpulseJointSet,
    multibody_joints: &mut MultibodyJointSet,
    ccd_solver: &mut CCDSolver,
)
    requires
        integration_settings(*parameters).min_island_size > 0,
        integration_settings(*parameters).ccd_substeps <= 1,
        step_stamp(*old(islands)) < u32::MAX,
        parts_fit(
            *old(bodies),
            *old(colliders),
            *old(islands),
            *old(broad_phase),
            *old(narrow_phase),
            *old(impulse_joints),
            *old(multibody_joints),
        ),
    ensures
        step_stamp(*final(islands)) == step_stamp(*old(islands)) + 1,
        parts_fit(
            *final(bodies),
            *final(colliders),
            *final(islands),
            *final(broad_phase),
            *final(narrow_phase),
            *final(impulse_joints),
            *final(multibody_joints),
        ),
        attached_colliders(*final(bodies)) == attached_colliders(*old(bodies)),
        bodies_stepped(body_states(*old(bodies)), body_states(*final(bodies))),
        collider_states(*final(colliders)) == collider_states(*old(colliders)),
{
    let gravity = Vector::new(Real::from_bits(gravity_x.bits), Real::from_bits(gravity_y.bits));
    let (hooks, events) = ((), ());
    pipeline.step(
        &gravity, parameters, islands, broad_phase, narrow_phase,
        bodies, colliders, impulse_joints, multibody_joints, ccd_solver,
        None, &hooks, &events,
    );
}

} // verus!
