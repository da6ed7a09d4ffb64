//! The physics world: bodies, colliders and the stepping call, as one value.

use crate::body::{BodyDesc, BodyState, ColliderDesc, ColliderState, Pose};
use crate::engine::{
    bodies_stepped, body_added, body_states, collider_added, collider_states, insert_cuboid,
    insert_dense_cuboid, insert_dynamic_body, insert_fixed_body, integration_settings, parts_fit,
    read_pose, read_settings, step_pipeline, step_stamp,
};
use crate::handle::{BodyHandle, ColliderHandle};
use crate::scalar::Scalar;
use crate::settings::{default_settings, StepSettings};
use rapier2d::dynamics::{
    CCDSolver, ImpulseJointSet, IntegrationParameters, IslandManager, MultibodyJointSet,
    RigidBodySet,
};
use rapier2d::geometry::{BroadPhase, ColliderSet, NarrowPhase};
use rapier2d::pipeline::PhysicsPipeline;
use vstd::prelude::*;

verus! {

/// Gravity, the integration parameters and the engine's parts, with a count
/// of the steps taken. It is changed by inserting into it and by `step`, and
/// by nothing else.
pub struct PhysicsWorld {
    gravity_x: Scalar,
    gravity_y: Scalar,
    steps: u32,
    pipeline: PhysicsPipeline,
    parameters: IntegrationParameters,
    islands: IslandManager,
    broad_phase: BroadPhase,
    narrow_phase: NarrowPhase,
    bodies: RigidBodySet,
    colliders: ColliderSet,
    impulse_joints: ImpulseJointSet,
    multibody_joints: MultibodyJointSet,
    ccd_solver: CCDSolver,
}

impl PhysicsWorld {
    /// The bodies in the world, by handle.
    pub closed spec fn bodies(&self) -> Map<BodyHandle, BodyState> {
        body_states(self.bodies)
    }

    /// The colliders in the world, by handle.
    pub closed spec fn colliders(&self) -> Map<ColliderHandle, ColliderState> {
        collider_states(self.colliders)
    }

    /// The constant acceleration applied to every dynamic body: its horizontal
    /// and vertical components.
    pub closed spec fn gravity(&self) -> (Scalar, Scalar) {
        (self.gravity_x, self.gravity_y)
    }

    /// The timestep and iteration counts that the world steps with.
    pub closed spec fn settings(&self) -> StepSettings {
        integration_settings(self.parameters)
    }

    /// How many steps the world has taken.
    pub closed spec fn step_count(&self) -> u32 {
        self.steps
    }

    /// The engine's parts fit together: every collider is attached to a body
    /// of this world, and no part keeps a handle that the world's sets do not
    /// hold. The count of steps is the engine's own.
    pub closed spec fn parts_fit(&self) -> bool {
        &&& self.steps == step_stamp(self.islands)
        &&& parts_fit(
            self.bodies,
            self.colliders,
            self.islands,
            self.broad_phase,
            self.narrow_phase,
            self.impulse_joints,
            self.multibody_joints,
        )
    }

    /// The world steps with the engine's own settings, its parts fit
    /// together, and it holds finitely many bodies and colliders.
    pub open spec fn wf(&self) -> bool {
        &&& self.settings() == default_settings()
        &&& self.parts_fit()
        &&& self.bodies().dom().finite()
        &&& self.colliders().dom().finite()
    }

    /// In a well-formed world every collider is attached to a body of the
    /// world.
    pub proof fn lemma_parents_in_world(&self, collider: ColliderHandle)
        requires
            self.wf(),
            self.colliders().dom().contains(collider),
        ensures
            self.bodies().dom().contains(self.colliders()[collider].parent),
    {
    }

    /// An empty world under the given gravity, with the engine's default
    /// integration parameters.
    pub fn new(gravity_x: Scalar, gravity_y: Scalar) -> (world: PhysicsWorld)
        ensures
            world.wf(),
            world.bodies().dom() == Set::<BodyHandle>::empty(),
            world.colliders().dom() == Set::<ColliderHandle>::empty(),
            world.gravity() == (gravity_x, gravity_y),
            world.settings() == default_settings(),
            world.step_count() == 0,
    {
        PhysicsWorld {
            gravity_x,
            gravity_y,
            steps: 0,
            pipeline: PhysicsPipeline::new(),
            parameters: IntegrationParameters::default(),
            islands: IslandManager::new(),
            broad_phase: BroadPhase::new(),
            narrow_phase: NarrowPhase::new(),
            bodies: RigidBodySet::new(),
            colliders: ColliderSet::new(),
            impulse_joints: ImpulseJointSet::new(),
            multibody_joints: MultibodyJointSet::new(),
            ccd_solver: CCDSolver::new(),
        }
    }

    /// Makes the described body and puts it into the world. The handle is new
    /// to the world; every other body and every collider stays as it was.
    pub fn insert_body(&mut self, desc: BodyDesc) -> (handle: BodyHandle)
        requires
            old(self).wf(),
        ensures
            final(self).wf(),
            body_added(old(self).bodies(), final(self).bodies(), handle),
            desc.describes(final(self).bodies()[handle]),
            final(self).colliders() == old(self).colliders(),
            final(self).gravity() == old(self).gravity(),
            final(self).step_count() == old(self).step_count(),
    {
        let handle = match desc {
            BodyDesc::Fixed { pose } => insert_fixed_body(&mut self.bodies, pose),
            BodyDesc::Dynamic { pose, angular_damping, ccd_enabled } => insert_dynamic_body(
                &mut self.bodies,
                pose,
                angular_damping,
                ccd_enabled,
            ),
        };
        handle
    }

    /// Makes the described collider and attaches it to `parent`, which must be
    /// in the world already. The handle is new to the world; every body and
    /// every other collider stays as it was.
    pub fn insert_collider(&mut self, desc: ColliderDesc, parent: BodyHandle) -> (handle:
        ColliderHandle)
        requires
            old(self).wf(),
            old(self).bodies().dom().contains(parent),
        ensures
            final(self).wf(),
            collider_added(old(self).colliders(), final(self).colliders(), handle),
            desc.describes(parent, final(self).colliders()[handle]),
            final(self).bodies() == old(self).bodies(),
            final(self).gravity() == old(self).gravity(),
            final(self).step_count() == old(self).step_count(),
    {
        let handle = match desc.density {
            None => insert_cuboid(
                &mut self.colliders,
                &mut self.bodies,
                parent,
                desc.half_width,
                desc.half_height,
            ),
            Some(density) => insert_dense_cuboid(
                &mut self.colliders,
                &mut self.bodies,
                parent,
                desc.half_width,
                desc.half_height,
                density,
            ),
        };
        handle
    }

    /// Advances the simulation by exactly one fixed timestep, under the
    /// world's gravity and with its settings. The count of steps rises by
    /// one, which it can do `u32::MAX` times; no body or collider enters or
    /// leaves; fixed bodies keep their pose; where the dynamic bodies are
    /// afterwards is the solver's business.
    pub fn step(&mut self)
        requires
            old(self).wf(),
            old(self).step_count() < u32::MAX,
        ensures
            final(self).wf(),
            final(self).step_count() == old(self).step_count() + 1,
            bodies_stepped(old(self).bodies(), final(self).bodies()),
            final(self).colliders() == old(self).colliders(),
            final(self).gravity() == old(self).gravity(),
    {
        step_pipeline(
            &mut self.pipeline,
            self.gravity_x,
            self.gravity_y,
            &self.parameters,
            &mut self.islands,
            &mut self.broad_phase,
            &mut self.narrow_phase,
            &mut self.bodies,
            &mut self.colliders,
            &mut self.impulse_joints,
            &mut self.multibody_joints,
            &mut self.ccd_solver,
        );
        self.steps = self.steps + 1;
    }

    /// How many steps the world has taken.
    pub fn steps(&self) -> (steps: u32)
        ensures
            steps == self.step_count(),
    {
        self.steps
    }

    /// The timestep and iteration counts that the world steps with.
    pub fn read_settings(&self) -> (settings: StepSettings)
        ensures
            settings == self.settings(),
    {
        read_settings(&self.parameters)
    }

    /// The current pose of a body of this world.
    pub fn pose(&self, handle: BodyHandle) -> (pose: Pose)
        requires
            self.bodies().dom().contains(handle),
        ensures
            pose == self.bodies()[handle].pose,
    {
        read_pose(&self.bodies, handle)
    }
}

} // verus!
