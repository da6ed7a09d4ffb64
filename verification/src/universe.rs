//! The universe: the word store and the physics world, kept in step.

use crate::body::{BodyState, ColliderState};
use crate::engine::{bodies_stepped, body_added, collider_added};
use crate::geometry::{box_fault, dense_box_fault, GeometryError};
use crate::handle::{BodyHandle, ColliderHandle};
use crate::render::{DrawCursor, Progress};
use crate::scalar::{zero, Scalar};
use crate::settings::{default_settings, StepSettings};
use crate::wall::Wall;
use crate::word::{angular_damping, WordBox, WordView};
use crate::world::PhysicsWorld;
use vstd::prelude::*;

verus! {

/// Bit pattern of `20.0`, the downward pull in world units per second
/// squared: gentle, for a smooth fall.
pub const GRAVITY_BITS: u32 = 0x41A0_0000;

/// Gravity: nothing sideways, a gentle pull downwards.
pub open spec fn gravity() -> (Scalar, Scalar) {
    (zero(), Scalar { bits: GRAVITY_BITS })
}

/// Owns the word boxes, in the order in which they were added, and the
/// physics world that moves them.
pub struct Universe {
    words: Vec<WordBox>,
    world: PhysicsWorld,
}

/// A universe as a plain value.
pub struct UniverseView {
    /// The word boxes, in insertion order.
    pub words: Seq<WordView>,
    /// The bodies in the physics world, by handle.
    pub bodies: Map<BodyHandle, BodyState>,
    /// The colliders in the physics world, by handle.
    pub colliders: Map<ColliderHandle, ColliderState>,
    /// Gravity: its horizontal and vertical components.
    pub gravity: (Scalar, Scalar),
    /// The timestep and iteration counts that the world steps with.
    pub settings: StepSettings,
    /// How many steps the world has taken.
    pub steps: u32,
}

impl UniverseView {
    /// The word box at `i` is in the world: its body is there, dynamic and as
    /// the word's description made it but for its pose; its collider is there,
    /// attached to that body, with the word's shape and density.
    pub open spec fn word_in_world(self, i: int) -> bool {
        &&& self.words[i].wf()
        &&& self.words[i].body_handle matches Some(body)
        &&& self.words[i].collider_handle matches Some(collider)
        &&& self.bodies.dom().contains(body)
        &&& !self.bodies[body].fixed
        &&& self.bodies[body].angular_damping == angular_damping()
        &&& !self.bodies[body].ccd_enabled
        &&& self.colliders.dom().contains(collider)
        &&& self.words[i].collider().describes(body, self.colliders[collider])
    }

    /// Each word box shows the pose that the world holds of its body.
    pub open spec fn synced(self) -> bool {
        forall|i: int|
            0 <= i < self.words.len() ==> (#[trigger] self.words[i]).pose()
                == self.bodies[self.words[i].body_handle->Some_0].pose
    }

    /// The word boxes at `i` and `j` share neither body nor collider.
    pub open spec fn apart(self, i: int, j: int) -> bool {
        &&& self.words[i].body_handle != self.words[j].body_handle
        &&& self.words[i].collider_handle != self.words[j].collider_handle
    }

    /// No two word boxes share a body or a collider.
    pub open spec fn distinct(self) -> bool {
        forall|i: int, j: int| 0 <= i < j < self.words.len() ==> #[trigger] self.apart(i, j)
    }

    /// Gravity is the universe's own and the world steps with the engine's
    /// own settings, it holds finitely many bodies and colliders, every word
    /// box is in the world with a body and a collider of its own, and shows
    /// its body's pose.
    pub open spec fn wf(self) -> bool {
        &&& self.gravity == gravity()
        &&& self.settings == default_settings()
        &&& self.bodies.dom().finite()
        &&& self.colliders.dom().finite()
        &&& forall|i: int| 0 <= i < self.words.len() ==> #[trigger] self.word_in_world(i)
        &&& self.distinct()
        &&& self.synced()
    }

    /// `after` steps under the same gravity and with the same settings.
    pub open spec fn same_setup(self, after: UniverseView) -> bool {
        &&& after.gravity == self.gravity
        &&& after.settings == self.settings
    }

    /// `after` is this universe with `wall` added: the world holds a fixed
    /// body made from the wall's description and, attached to it, the wall's
    /// collider, neither of which it held before. The word boxes and
    /// everything that was in the world are unchanged, and no step is taken.
    pub open spec fn with_wall(self, wall: Wall, after: UniverseView) -> bool {
        &&& after.words == self.words
        &&& self.same_setup(after)
        &&& after.steps == self.steps
        &&& exists|body: BodyHandle, collider: ColliderHandle|
            {
                &&& body_added(self.bodies, after.bodies, body)
                &&& wall.body().describes(#[trigger] after.bodies[body])
                &&& collider_added(self.colliders, after.colliders, collider)
                &&& wall.collider().describes(body, #[trigger] after.colliders[collider])
            }
    }

    /// `after` is this universe with `word` added: `word` with its handles set
    /// is the last word box, after the word boxes there were; its body and
    /// collider were made from the word's descriptions and are new to the
    /// world. Everything that was in the world is unchanged, and no step is
    /// taken.
    pub open spec fn with_word(self, word: WordView, after: UniverseView) -> bool {
        &&& self.same_setup(after)
        &&& after.steps == self.steps
        &&& after.words.len() == self.words.len() + 1
        &&& after.words.drop_last() == self.words
        &&& after.words.last().body_handle matches Some(body)
        &&& after.words.last().collider_handle matches Some(collider)
        &&& after.words.last() == word.registered_as(body, collider)
        &&& body_added(self.bodies, after.bodies, body)
        &&& word.body().describes(after.bodies[body])
        &&& collider_added(self.colliders, after.colliders, collider)
        &&& word.collider().describes(body, after.colliders[collider])
    }

    /// `after` is this universe one tick later: the world has made exactly
    /// one step; the word boxes are the same, in the same order, each changed
    /// in its pose at most; and each shows the pose that its body has after
    /// the step.
    pub open spec fn ticked(self, after: UniverseView) -> bool {
        &&& self.same_setup(after)
        &&& after.steps == self.steps + 1
        &&& after.words.len() == self.words.len()
        &&& forall|i: int|
            0 <= i < self.words.len() ==> (#[trigger] self.words[i]).same_word(after.words[i])
        &&& bodies_stepped(self.bodies, after.bodies)
        &&& after.colliders == self.colliders
        &&& after.synced()
    }

    /// Adding a wall keeps the universe well formed.
    pub proof fn lemma_with_wall(self, wall: Wall, after: UniverseView)
        requires
            self.wf(),
            self.with_wall(wall, after),
        ensures
            after.wf(),
    {
        assert forall|i: int| 0 <= i < after.words.len() implies #[trigger] after.word_in_world(
            i,
        ) by {
            assert(self.word_in_world(i));
        }
        assert forall|i: int, j: int| 0 <= i < j < after.words.len() implies #[trigger] after.apart(
            i,
            j,
        ) by {
            assert(self.apart(i, j));
        }
        assert forall|i: int| 0 <= i < after.words.len() implies (#[trigger] after.words[i]).pose()
            == after.bodies[after.words[i].body_handle->Some_0].pose by {
            assert(self.word_in_world(i));
        }
    }

    /// Adding a word keeps the universe well formed.
    pub proof fn lemma_with_word(self, word: WordView, after: UniverseView)
        requires
            self.wf(),
            word.wf(),
            word.body_handle is None,
            word.collider_handle is None,
            word.angle == zero(),
            self.with_word(word, after),
        ensures
            after.wf(),
    {
        let n = self.words.len() as int;
        assert forall|i: int| 0 <= i < after.words.len() implies #[trigger] after.word_in_world(
            i,
        ) by {
            if i < n {
                assert(self.word_in_world(i));
            }
        }
        assert forall|i: int, j: int| 0 <= i < j < after.words.len() implies #[trigger] after.apart(
            i,
            j,
        ) by {
            assert(self.word_in_world(i));
            if j < n {
                assert(self.apart(i, j));
            }
        }
        assert forall|i: int| 0 <= i < after.words.len() implies (#[trigger] after.words[i]).pose()
            == after.bodies[after.words[i].body_handle->Some_0].pose by {
            if i < n {
                assert(self.word_in_world(i));
            }
        }
    }

    /// A tick keeps the universe well formed.
    pub proof fn lemma_ticked(self, after: UniverseView)
        requires
            self.wf(),
            self.ticked(after),
        ensures
            after.wf(),
    {
        assert forall|i: int| 0 <= i < after.words.len() implies #[trigger] after.word_in_world(
            i,
        ) by {
            assert(self.word_in_world(i));
        }
        assert forall|i: int, j: int| 0 <= i < j < after.words.len() implies #[trigger] after.apart(
            i,
            j,
        ) by {
            assert(self.apart(i, j));
        }
    }
}

impl View for Universe {
    type V = UniverseView;

    closed spec fn view(&self) -> UniverseView {
        UniverseView {
            words: Seq::new(self.words@.len(), |i: int| self.words@[i]@),
            bodies: self.world.bodies(),
            colliders: self.world.colliders(),
            gravity: self.world.gravity(),
            settings: self.world.settings(),
            steps: self.world.step_count(),
        }
    }
}

impl Universe {
    /// The physics world is well formed: its parts fit together, and every
    /// collider is attached to a body of the world.
    pub closed spec fn world_wf(&self) -> bool {
        self.world.wf()
    }

    /// The store and the world fit together.
    pub open spec fn wf(&self) -> bool {
        &&& self.world_wf()
        &&& self@.wf()
    }

    /// A universe with no word and an empty world, under the universe's
    /// gravity, with the engine's own timestep and iteration counts, and with
    /// no step taken yet.
    pub fn new() -> (universe: Universe)
        ensures
            universe.wf(),
            universe@.words.len() == 0,
            universe@.bodies.dom() == Set::<BodyHandle>::empty(),
            universe@.colliders.dom() == Set::<ColliderHandle>::empty(),
            universe@.gravity == gravity(),
            universe@.settings == default_settings(),
            universe@.steps == 0,
    {
        let pull = Scalar::from_bits(GRAVITY_BITS);
        Universe { words: Vec::new(), world: PhysicsWorld::new(Scalar::zero(), pull) }
    }

    /// The number of word boxes.
    pub fn len(&self) -> (n: usize)
        ensures
            n == self@.words.len(),
    {
        self.words.len()
    }

    /// The word box at `index` in insertion order, if there is one.
    pub fn word(&self, index: usize) -> (r: Option<&WordBox>)
        ensures
            match r {
                Some(word) => index < self@.words.len() && word@ == self@.words[index as int],
                None => index >= self@.words.len(),
            },
    {
        if index < self.words.len() {
            Some(&self.words[index])
        } else {
            None
        }
    }

    /// How many steps the world has taken, which is how many ticks there
    /// were.
    pub fn steps(&self) -> (steps: u32)
        ensures
            steps == self@.steps,
    {
        self.world.steps()
    }

    /// The physics world, to read from.
    pub fn world(&self) -> (world: &PhysicsWorld)
        ensures
            world.wf() == self.world_wf(),
            world.bodies() == self@.bodies,
            world.colliders() == self@.colliders,
            world.gravity() == self@.gravity,
            world.settings() == self@.settings,
            world.step_count() == self@.steps,
    {
        &self.world
    }

    /// Adds a static obstacle: a fixed body at the given centre, not rotated,
    /// with a box collider of the given half extents. Its handles are not
    /// kept. Geometry that the library does not accept is rejected and leaves
    /// the universe as it was.
    pub fn add_wall(
        &mut self,
        center_x: Scalar,
        center_y: Scalar,
        half_width: Scalar,
        half_height: Scalar,
    ) -> (r: Result<(), GeometryError>)
        requires
            old(self).wf(),
        ensures
            final(self).wf(),
            match box_fault(center_x, center_y, half_width, half_height) {
                Some(fault) => r == Err::<(), GeometryError>(fault) && final(self)@ == old(self)@,
                None => r is Ok && old(self)@.with_wall(
                    Wall { center_x, center_y, half_width, half_height },
                    final(self)@,
                ),
            },
    {
        let wall = match Wall::new(center_x, center_y, half_width, half_height) {
            Err(fault) => {
                return Err(fault);
            },
            Ok(wall) => wall,
        };
        let body = self.world.insert_body(wall.new_body());
        let collider = self.world.insert_collider(wall.new_collider(), body);
        proof {
            assert(wall.body().describes(self@.bodies[body]));
            assert(wall.collider().describes(body, self@.colliders[collider]));
            old(self)@.lemma_with_wall(wall, self@);
        }
        Ok(())
    }

    /// Adds a word box: a dynamic body at the given centre, not rotated, and
    /// attached to it a box collider of the given half extents and density.
    /// The body goes into the world first, then the collider with the body as
    /// its parent; the box keeps both handles and goes to the end of the
    /// store. Geometry that the library does not accept is rejected and leaves
    /// the universe as it was.
    pub fn add_word(
        &mut self,
        center_x: Scalar,
        center_y: Scalar,
        half_width: Scalar,
        half_height: Scalar,
        density: Scalar,
        text: String,
    ) -> (r: Result<(), GeometryError>)
        requires
            old(self).wf(),
        ensures
            final(self).wf(),
            match dense_box_fault(center_x, center_y, half_width, half_height, density) {
                Some(fault) => r == Err::<(), GeometryError>(fault) && final(self)@ == old(self)@,
                None => r is Ok && old(self)@.with_word(
                    WordView::fresh(center_x, center_y, half_width, half_height, density, text@),
                    final(self)@,
                ),
            },
    {
        let mut word = match WordBox::new(
            center_x,
            center_y,
            half_width,
            half_height,
            density,
            text,
        ) {
            Err(fault) => {
                return Err(fault);
            },
            Ok(word) => word,
        };
        let body = word.new_body();
        let collider = word.new_collider();

        let body_handle = self.world.insert_body(body);
        word.set_body_handle(body_handle);

        let collider_handle = self.world.insert_collider(collider, body_handle);
        word.set_collider_handle(collider_handle);

        self.words.push(word);
        proof {
            let fresh = WordView::fresh(
                center_x,
                center_y,
                half_width,
                half_height,
                density,
                text@,
            );
            assert(self@.words.drop_last() =~= old(self)@.words);
            old(self)@.lemma_with_word(fresh, self@);
        }
        Ok(())
    }

    /// Advances the physics world by exactly one fixed timestep, under the
    /// universe's gravity and with its settings. The word boxes are not
    /// touched: until they are synchronised they show the poses of before.
    fn step(&mut self)
        requires
            old(self).world_wf(),
            old(self)@.steps < u32::MAX,
        ensures
            final(self).world_wf(),
            final(self)@.steps == old(self)@.steps + 1,
            old(self)@.same_setup(final(self)@),
            final(self)@.words == old(self)@.words,
            bodies_stepped(old(self)@.bodies, final(self)@.bodies),
            final(self)@.colliders == old(self)@.colliders,
    {
        self.world.step();
    }

    /// One frame: advances the physics world by one fixed timestep, then
    /// overwrites the pose of every word box with the pose of its body, and
    /// hands out the cursor that walks the frame's drawing. Drawing therefore
    /// never sees a pose from before the step. No word box enters, leaves or
    /// changes place, and none changes but in its pose. The world counts its
    /// steps and can take `u32::MAX` of them; `steps` tells how many it has
    /// taken.
    pub fn tick(&mut self) -> (cursor: DrawCursor)
        requires
            old(self).wf(),
            old(self)@.steps < u32::MAX,
        ensures
            final(self).wf(),
            old(self)@.ticked(final(self)@),
            cursor@ == Progress::start(final(self)@.words.len()),
    {
        self.step();
        let ghost stepped = self@;
        let ghost world = self.world;
        proof {
            assert forall|j: int| 0 <= j < stepped.words.len() implies {
                &&& (#[trigger] stepped.words[j]).body_handle is Some
                &&& stepped.bodies.dom().contains(stepped.words[j].body_handle->Some_0)
            } by {
                assert(old(self)@.word_in_world(j));
            }
        }
        let n = self.words.len();
        let mut i: usize = 0;
        while i < n
            invariant
                i <= n,
                n == self.words@.len(),
                self.world == world,
                self@.bodies == stepped.bodies,
                self@.colliders == stepped.colliders,
                self@.steps == stepped.steps,
                stepped.same_setup(self@),
                self@.words.len() == stepped.words.len(),
                forall|j: int|
                    0 <= j < stepped.words.len() ==> {
                        &&& (#[trigger] stepped.words[j]).body_handle is Some
                        &&& stepped.bodies.dom().contains(stepped.words[j].body_handle->Some_0)
                    },
                forall|j: int|
                    0 <= j < i ==> #[trigger] self@.words[j] == stepped.words[j].at(
                        stepped.bodies[stepped.words[j].body_handle->Some_0].pose,
                    ),
                forall|j: int| i <= j < n ==> #[trigger] self@.words[j] == stepped.words[j],
            decreases n - i,
        {
            let ghost before = self@;
            assert(before.words[i as int] == stepped.words[i as int]);
            self.words[i].update_coords(&self.world);
            assert forall|j: int| 0 <= j < n && j != i implies #[trigger] self@.words[j]
                == before.words[j] by {}
            i += 1;
        }
        proof {
            old(self)@.lemma_ticked(self@);
        }
        DrawCursor::start(n)
    }
}

} // verus!
