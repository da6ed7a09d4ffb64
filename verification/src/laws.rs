//! What holds of a universe over its whole life.
//!
//! A universe changes by three calls only: adding a wall, adding a word and
//! ticking. The laws below speak of every sequence of such calls and of every
//! universe that can come of one.

use crate::body::{BodyState, ColliderState};
use crate::geometry::{box_fault, dense_box_fault};
use crate::handle::{BodyHandle, ColliderHandle};
use crate::scalar::Scalar;
use crate::universe::UniverseView;
use crate::wall::Wall;
use crate::word::WordView;
use vstd::prelude::*;

verus! {

/// One call on a universe, with its arguments as plain values.
pub enum Call {
    AddWall { center_x: Scalar, center_y: Scalar, half_width: Scalar, half_height: Scalar },
    AddWord {
        center_x: Scalar,
        center_y: Scalar,
        half_width: Scalar,
        half_height: Scalar,
        density: Scalar,
        text: Seq<char>,
    },
    Tick,
}

impl Call {
    /// The word box that the call makes, if it is an accepted call to add one.
    pub open spec fn word(self) -> Option<WordView> {
        match self {
            Call::AddWord { center_x, center_y, half_width, half_height, density, text } => {
                if dense_box_fault(center_x, center_y, half_width, half_height, density) is None {
                    Some(
                        WordView::fresh(center_x, center_y, half_width, half_height, density, text),
                    )
                } else {
                    None
                }
            },
            _ => None,
        }
    }

    /// The wall that the call makes, if it is an accepted call to add one.
    pub open spec fn wall(self) -> Option<Wall> {
        match self {
            Call::AddWall { center_x, center_y, half_width, half_height } => {
                if box_fault(center_x, center_y, half_width, half_height) is None {
                    Some(Wall { center_x, center_y, half_width, half_height })
                } else {
                    None
                }
            },
            _ => None,
        }
    }

    /// The call may lead from `before` to `after`: this is what
    /// `Universe::add_wall`, `Universe::add_word` and `Universe::tick` each
    /// promise of the universe they leave behind.
    pub open spec fn leads(self, before: UniverseView, after: UniverseView) -> bool {
        match self {
            Call::AddWall { .. } => match self.wall() {
                Some(wall) => before.with_wall(wall, after),
                None => after == before,
            },
            Call::AddWord { .. } => match self.word() {
                Some(word) => before.with_word(word, after),
                None => after == before,
            },
            Call::Tick => before.ticked(after),
        }
    }
}

/// `states` is a life of a universe under `calls`: it begins with
/// `states[0]`, and the call `calls[i]` leads from `states[i]` to
/// `states[i + 1]`.
pub open spec fn is_life(calls: Seq<Call>, states: Seq<UniverseView>) -> bool {
    &&& states.len() == calls.len() + 1
    &&& forall|i: int| 0 <= i < calls.len() ==> #[trigger] calls[i].leads(states[i], states[i + 1])
}

/// The word boxes that `calls` makes, in the order of the calls.
pub open spec fn words_made(calls: Seq<Call>) -> Seq<WordView>
    decreases calls.len(),
{
    if calls.len() == 0 {
        Seq::empty()
    } else {
        match calls.last().word() {
            Some(word) => words_made(calls.drop_last()).push(word),
            None => words_made(calls.drop_last()),
        }
    }
}

/// No word box of `before` is missing from `after` or has changed place, and
/// none has changed but in its pose.
pub open spec fn words_kept(before: Seq<WordView>, after: Seq<WordView>) -> bool {
    &&& before.len() <= after.len()
    &&& forall|k: int| 0 <= k < before.len() ==> (#[trigger] before[k]).same_word(after[k])
}

/// Every fixed body of `before` is in `after` exactly as it was.
pub open spec fn walls_kept(
    before: Map<BodyHandle, BodyState>,
    after: Map<BodyHandle, BodyState>,
) -> bool {
    forall|h: BodyHandle| #[trigger]
        before.dom().contains(h) && before[h].fixed ==> after.dom().contains(h) && after[h]
            == before[h]
}

/// Every collider of `before` is in `after` exactly as it was.
pub open spec fn colliders_kept(
    before: Map<ColliderHandle, ColliderState>,
    after: Map<ColliderHandle, ColliderState>,
) -> bool {
    forall|c: ColliderHandle| #[trigger]
        before.dom().contains(c) ==> after.dom().contains(c) && after[c] == before[c]
}

/// One call keeps the word boxes, the walls, the colliders, gravity and the
/// settings; it takes exactly one step if it is a tick and none otherwise; it
/// adds a word box at the end, or none; and it keeps a well-formed universe
/// well formed.
pub proof fn lemma_call_keeps(call: Call, before: UniverseView, after: UniverseView)
    requires
        call.leads(before, after),
    ensures
        words_kept(before.words, after.words),
        walls_kept(before.bodies, after.bodies),
        colliders_kept(before.colliders, after.colliders),
        before.same_setup(after),
        after.steps == before.steps + (if call is Tick {
            1int
        } else {
            0
        }),
        match call.word() {
            Some(word) => {
                &&& after.words.len() == before.words.len() + 1
                &&& after.words.last().body_handle matches Some(body)
                &&& after.words.last().collider_handle matches Some(collider)
                &&& after.words.last() == word.registered_as(body, collider)
            },
            None => after.words.len() == before.words.len(),
        },
        before.wf() ==> after.wf(),
{
    match call {
        Call::AddWall { .. } => {
            if call.wall() is Some && before.wf() {
                before.lemma_with_wall(call.wall()->Some_0, after);
            }
        },
        Call::AddWord { .. } => {
            if call.word() is Some {
                if before.wf() {
                    before.lemma_with_word(call.word()->Some_0, after);
                }
            }
        },
        Call::Tick => {
            if before.wf() {
                before.lemma_ticked(after);
            }
        },
    }
}

/// No call ever removes a word box, moves it to another place or changes
/// anything of it but its pose: between any two moments of a universe's life
/// the earlier word boxes are, up to their poses, a prefix of the later ones.
pub proof fn lemma_words_never_removed(
    calls: Seq<Call>,
    states: Seq<UniverseView>,
    i: int,
    j: int,
)
    requires
        is_life(calls, states),
        0 <= i <= j <= calls.len(),
    ensures
        words_kept(states[i].words, states[j].words),
    decreases j - i,
{
    if i < j {
        lemma_words_never_removed(calls, states, i, j - 1);
        assert(calls[j - 1].leads(states[j - 1], states[j - 1 + 1]));
        lemma_call_keeps(calls[j - 1], states[j - 1], states[j]);
    }
}

/// A universe that began without word boxes holds exactly one word box for
/// each accepted call of `add_word`, in the order of the calls, with the
/// extents, density and text that the call gave.
pub proof fn lemma_words_in_call_order(calls: Seq<Call>, states: Seq<UniverseView>)
    requires
        is_life(calls, states),
        states[0].words.len() == 0,
    ensures
        states.last().words.len() == words_made(calls).len(),
        forall|k: int|
            0 <= k < words_made(calls).len() ==> (#[trigger] words_made(calls)[k]).registered_as(
                states.last().words[k].body_handle->Some_0,
                states.last().words[k].collider_handle->Some_0,
            ).same_word(states.last().words[k]),
    decreases calls.len(),
{
    if calls.len() > 0 {
        let n = calls.len() as int;
        let earlier_calls = calls.drop_last();
        let earlier_states = states.drop_last();
        lemma_words_in_call_order(earlier_calls, earlier_states);
        lemma_call_keeps(calls[n - 1], states[n - 1], states[n]);
    }
}

/// A fixed body is never moved or changed by any call, however many ticks
/// there are: between any two moments of a universe's life every wall of the
/// earlier moment stands in the later one with the pose it had.
pub proof fn lemma_walls_never_move(calls: Seq<Call>, states: Seq<UniverseView>, i: int, j: int)
    requires
        is_life(calls, states),
        0 <= i <= j <= calls.len(),
    ensures
        walls_kept(states[i].bodies, states[j].bodies),
    decreases j - i,
{
    if i < j {
        lemma_walls_never_move(calls, states, i, j - 1);
        assert(calls[j - 1].leads(states[j - 1], states[j - 1 + 1]));
        lemma_call_keeps(calls[j - 1], states[j - 1], states[j]);
    }
}

/// How many of `calls` are ticks.
pub open spec fn ticks(calls: Seq<Call>) -> nat
    decreases calls.len(),
{
    if calls.len() == 0 {
        0
    } else {
        ticks(calls.drop_last()) + (if calls.last() is Tick {
            1nat
        } else {
            0
        })
    }
}

/// Every tick takes exactly one step and nothing else takes any: over a life
/// the count of steps rises by the number of ticks.
pub proof fn lemma_one_step_per_tick(calls: Seq<Call>, states: Seq<UniverseView>)
    requires
        is_life(calls, states),
    ensures
        states.last().steps == states[0].steps + ticks(calls),
    decreases calls.len(),
{
    if calls.len() > 0 {
        let n = calls.len() as int;
        lemma_one_step_per_tick(calls.drop_last(), states.drop_last());
        assert(calls[n - 1].leads(states[n - 1], states[n - 1 + 1]));
        lemma_call_keeps(calls[n - 1], states[n - 1], states[n]);
    }
}

/// An accepted wall or word puts exactly one body and one collider more into
/// the world; a tick and a rejected call put in none.
pub proof fn lemma_counts_rise(call: Call, before: UniverseView, after: UniverseView)
    requires
        before.wf(),
        call.leads(before, after),
    ensures
        after.bodies.dom().len() == before.bodies.dom().len() + (if call.wall() is Some
            || call.word() is Some {
            1int
        } else {
            0
        }),
        after.colliders.dom().len() == before.colliders.dom().len() + (if call.wall() is Some
            || call.word() is Some {
            1int
        } else {
            0
        }),
{
}

/// Gravity, the timestep and the iteration counts are the same at every
/// moment of a universe's life.
pub proof fn lemma_setup_never_changes(
    calls: Seq<Call>,
    states: Seq<UniverseView>,
    i: int,
    j: int,
)
    requires
        is_life(calls, states),
        0 <= i <= j <= calls.len(),
    ensures
        states[i].same_setup(states[j]),
    decreases j - i,
{
    if i < j {
        lemma_setup_never_changes(calls, states, i, j - 1);
        assert(calls[j - 1].leads(states[j - 1], states[j - 1 + 1]));
        lemma_call_keeps(calls[j - 1], states[j - 1], states[j]);
    }
}

/// At every moment of a life that began well formed, and so after every tick,
/// each word box shows exactly the pose that the world holds of its body at
/// that moment, has a body and a collider of its own in the world, and its
/// collider has the shape and density the word was made with.
pub proof fn lemma_always_synced(calls: Seq<Call>, states: Seq<UniverseView>, j: int)
    requires
        is_life(calls, states),
        states[0].wf(),
        0 <= j <= calls.len(),
    ensures
        states[j].wf(),
        states[j].synced(),
    decreases j,
{
    if 0 < j {
        lemma_always_synced(calls, states, j - 1);
        assert(calls[j - 1].leads(states[j - 1], states[j - 1 + 1]));
        lemma_call_keeps(calls[j - 1], states[j - 1], states[j]);
    }
}

} // verus!
