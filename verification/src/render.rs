//! The renderer: one scoped drawing transaction per word, in insertion order.
//!
//! Drawing a word is a transaction on the drawing surface: save the transform,
//! translate, rotate, draw the text, restore the transform. Translating,
//! rotating and drawing may fail; saving and restoring do not. A failure ends
//! the word's transaction early, but never without its restore, and the next
//! word is drawn all the same.
//!
//! The library does not draw. It says which step comes next; the caller
//! performs it on its surface and reports how it went.

use vstd::prelude::*;

verus! {

/// One operation on the drawing surface.
#[derive(Clone, Copy, Debug, PartialEq, Eq, Structural)]
pub enum DrawOp {
    /// Save the surface's transform.
    Save,
    /// Move the origin to the word's anchor.
    Translate,
    /// Rotate by the word's angle.
    Rotate,
    /// Draw the word's text at the origin.
    FillText,
    /// Bring back the transform that was saved.
    Restore,
}

/// An operation and the word it is for, by the word's place in the store.
#[derive(Clone, Copy, Debug, PartialEq, Eq, Structural)]
pub struct DrawStep {
    pub word: usize,
    pub op: DrawOp,
}

/// Where a frame's drawing stands, as a plain value: `word` of `words` words
/// is being drawn and `op` is its next operation. With `word == words` the
/// frame is drawn.
pub struct Progress {
    pub words: nat,
    pub word: nat,
    pub op: DrawOp,
}

/// The operation that follows `op` in a word's transaction, given how `op`
/// went; `None` after the restore, which ends the transaction. A failure
/// leads straight to the restore.
pub open spec fn next_op(op: DrawOp, ok: bool) -> Option<DrawOp> {
    match op {
        DrawOp::Save => Some(DrawOp::Translate),
        DrawOp::Translate => Some(if ok { DrawOp::Rotate } else { DrawOp::Restore }),
        DrawOp::Rotate => Some(if ok { DrawOp::FillText } else { DrawOp::Restore }),
        DrawOp::FillText => Some(DrawOp::Restore),
        DrawOp::Restore => None,
    }
}

impl Progress {
    /// No word beyond the last is being drawn, and a drawn frame has no
    /// operation pending.
    pub open spec fn wf(self) -> bool {
        &&& self.word <= self.words
        &&& self.word == self.words ==> self.op == DrawOp::Save
    }

    /// The beginning of a frame of `words` words.
    pub open spec fn start(words: nat) -> Progress {
        Progress { words, word: 0, op: DrawOp::Save }
    }

    /// Every word has had its transaction.
    pub open spec fn finished(self) -> bool {
        self.word >= self.words
    }

    /// The step to perform now.
    pub open spec fn current(self) -> DrawStep {
        DrawStep { word: self.word as usize, op: self.op }
    }

    /// The progress after the current step went as `ok` says.
    pub open spec fn advance(self, ok: bool) -> Progress {
        if self.finished() {
            self
        } else {
            match next_op(self.op, ok) {
                Some(op) => Progress { op, ..self },
                None => Progress { word: self.word + 1, op: DrawOp::Save, ..self },
            }
        }
    }

    /// How many transforms are saved and not yet restored.
    pub open spec fn depth(self) -> int {
        if self.op == DrawOp::Save {
            0
        } else {
            1
        }
    }

    /// How many steps are left at most.
    pub open spec fn remaining(self) -> int {
        5 * (self.words - self.word) - match self.op {
            DrawOp::Save => 0int,
            DrawOp::Translate => 1,
            DrawOp::Rotate => 2,
            DrawOp::FillText => 3,
            DrawOp::Restore => 4,
        }
    }

    /// The progress after the steps went as `outcomes` says, one outcome per
    /// step; outcomes beyond the end of the frame are not looked at.
    pub open spec fn after(self, outcomes: Seq<bool>) -> Progress
        decreases outcomes.len(),
    {
        if outcomes.len() == 0 {
            self
        } else {
            self.advance(outcomes[0]).after(outcomes.drop_first())
        }
    }

    /// The steps performed while the outcomes come in as `outcomes` says.
    pub open spec fn trace(self, outcomes: Seq<bool>) -> Seq<DrawStep>
        decreases outcomes.len(),
    {
        if outcomes.len() == 0 || self.finished() {
            Seq::empty()
        } else {
            seq![self.current()] + self.advance(outcomes[0]).trace(outcomes.drop_first())
        }
    }
}

/// What a step adds to the number of saved transforms.
pub open spec fn weight(op: DrawOp) -> int {
    match op {
        DrawOp::Save => 1,
        DrawOp::Restore => -1,
        _ => 0,
    }
}

/// Saves less restores among `steps`.
pub open spec fn balance(steps: Seq<DrawStep>) -> int
    decreases steps.len(),
{
    if steps.len() == 0 {
        0
    } else {
        weight(steps[0].op) + balance(steps.drop_first())
    }
}

/// The words that `steps` applies `op` to, in the order of the steps.
pub open spec fn words_with(steps: Seq<DrawStep>, op: DrawOp) -> Seq<usize>
    decreases steps.len(),
{
    if steps.len() == 0 {
        Seq::empty()
    } else if steps[0].op == op {
        seq![steps[0].word] + words_with(steps.drop_first(), op)
    } else {
        words_with(steps.drop_first(), op)
    }
}

/// The places `from`, `from + 1`, .., `to - 1`.
pub open spec fn places(from: nat, to: nat) -> Seq<usize> {
    Seq::new((to - from) as nat, |i: int| (from + i) as usize)
}

/// `outcomes` reports no failure.
pub open spec fn all_ok(outcomes: Seq<bool>) -> bool {
    forall|i: int| 0 <= i < outcomes.len() ==> outcomes[i]
}

/// The five steps of a word's transaction when nothing fails.
pub open spec fn transaction(word: usize) -> Seq<DrawStep> {
    seq![
        DrawStep { word, op: DrawOp::Save },
        DrawStep { word, op: DrawOp::Translate },
        DrawStep { word, op: DrawOp::Rotate },
        DrawStep { word, op: DrawOp::FillText },
        DrawStep { word, op: DrawOp::Restore },
    ]
}

/// The steps of a whole frame when nothing fails: the transactions of the
/// words `from`, `from + 1`, .., `words - 1`, one after the other.
pub open spec fn frame(from: nat, words: nat) -> Seq<DrawStep>
    decreases words - from,
{
    if from >= words {
        Seq::empty()
    } else {
        transaction(from as usize) + frame(from + 1, words)
    }
}

/// Where a frame's drawing stands.
#[derive(Clone, Copy, Debug, PartialEq, Eq, Structural)]
pub struct DrawCursor {
    words: usize,
    word: usize,
    op: DrawOp,
}

impl View for DrawCursor {
    type V = Progress;

    closed spec fn view(&self) -> Progress {
        Progress { words: self.words as nat, word: self.word as nat, op: self.op }
    }
}

impl DrawCursor {
    /// The cursor at the beginning of a frame of `words` words.
    pub fn start(words: usize) -> (cursor: DrawCursor)
        ensures
            cursor@ == Progress::start(words as nat),
    {
        DrawCursor { words, word: 0, op: DrawOp::Save }
    }

    /// Whether every word has had its transaction.
    pub fn is_finished(&self) -> (r: bool)
        ensures
            r == self@.finished(),
    {
        self.word >= self.words
    }

    /// The step to perform now, or `None` when the frame is drawn.
    pub fn current(&self) -> (r: Option<DrawStep>)
        ensures
            r == if self@.finished() {
                None
            } else {
                Some(self@.current())
            },
            r matches Some(step) ==> step.word < self@.words,
    {
        if self.word >= self.words {
            None
        } else {
            Some(DrawStep { word: self.word, op: self.op })
        }
    }

    /// Moves on after the current step went as `ok` says. Saving and restoring
    /// cannot fail: after them `ok` is not looked at. On a drawn frame nothing
    /// changes.
    pub fn advance(&mut self, ok: bool)
        ensures
            final(self)@ == old(self)@.advance(ok),
    {
        if self.word >= self.words {
            return;
        }
        match self.op {
            DrawOp::Save => {
                self.op = DrawOp::Translate;
            },
            DrawOp::Translate => {
                self.op = if ok {
                    DrawOp::Rotate
                } else {
                    DrawOp::Restore
                };
            },
            DrawOp::Rotate => {
                self.op = if ok {
                    DrawOp::FillText
                } else {
                    DrawOp::Restore
                };
            },
            DrawOp::FillText => {
                self.op = DrawOp::Restore;
            },
            DrawOp::Restore => {
                self.word = self.word + 1;
                self.op = DrawOp::Save;
            },
        }
    }
}

/// Moving on keeps the progress well formed and, while the frame is not
/// drawn, uses up one of the remaining steps.
pub proof fn lemma_advance(p: Progress, ok: bool)
    requires
        p.wf(),
    ensures
        p.advance(ok).wf(),
        p.advance(ok).words == p.words,
        p.remaining() >= 0,
        p.finished() ==> p.advance(ok) == p && p.remaining() == 0,
        !p.finished() ==> p.advance(ok).remaining() < p.remaining(),
        !p.finished() ==> p.advance(ok).depth() == p.depth() + weight(p.op),
{
}

/// A drawn frame stays drawn whatever is reported.
pub proof fn lemma_finished_stays(p: Progress, outcomes: Seq<bool>)
    requires
        p.finished(),
    ensures
        p.after(outcomes) == p,
    decreases outcomes.len(),
{
    if outcomes.len() > 0 {
        lemma_finished_stays(p, outcomes.drop_first());
    }
}

/// Every frame ends: after five reports per word that is not yet drawn, the
/// frame is drawn, whatever failed.
pub proof fn lemma_frame_ends(p: Progress, outcomes: Seq<bool>)
    requires
        p.wf(),
        outcomes.len() >= p.remaining(),
    ensures
        p.after(outcomes).finished(),
    decreases outcomes.len(),
{
    lemma_advance(p, true);
    if outcomes.len() > 0 {
        lemma_advance(p, outcomes[0]);
        lemma_frame_ends(p.advance(outcomes[0]), outcomes.drop_first());
    }
}

/// Saves and restores are paired on every path: at no moment is more than one
/// transform saved, none is restored that was not saved, and when the frame is
/// drawn none is left saved. This holds whatever failed.
pub proof fn lemma_scoped(p: Progress, outcomes: Seq<bool>)
    requires
        p.wf(),
    ensures
        p.depth() + balance(p.trace(outcomes)) == p.after(outcomes).depth(),
        0 <= p.depth() + balance(p.trace(outcomes)) <= 1,
        p.after(outcomes).finished() ==> p.depth() + balance(p.trace(outcomes)) == 0,
    decreases outcomes.len(),
{
    if outcomes.len() == 0 {
    } else if p.finished() {
        lemma_finished_stays(p, outcomes);
    } else {
        let next = p.advance(outcomes[0]);
        let rest = next.trace(outcomes.drop_first());
        lemma_advance(p, outcomes[0]);
        lemma_scoped(next, outcomes.drop_first());
        assert(p.trace(outcomes).drop_first() =~= rest);
    }
}

/// Every word is drawn, in insertion order, whatever failed: when the frame
/// is drawn, the transforms saved are those of the words from the current one
/// (or the one after it, if its transform is saved already) to the last, in
/// that order, and so are the transforms restored.
pub proof fn lemma_every_word_in_order(p: Progress, outcomes: Seq<bool>)
    requires
        p.wf(),
        p.after(outcomes).finished(),
    ensures
        words_with(p.trace(outcomes), DrawOp::Save) == places(
            (p.word + p.depth()) as nat,
            p.words,
        ),
        words_with(p.trace(outcomes), DrawOp::Restore) == places(p.word, p.words),
    decreases outcomes.len(),
{
    if !p.finished() && outcomes.len() > 0 {
        let next = p.advance(outcomes[0]);
        let rest = next.trace(outcomes.drop_first());
        lemma_advance(p, outcomes[0]);
        lemma_every_word_in_order(next, outcomes.drop_first());
        assert(p.trace(outcomes).drop_first() =~= rest);
    }
}

/// When nothing fails, the frame is exactly the full transaction of every word,
/// one word after the other in insertion order.
pub proof fn lemma_frame_without_failure(p: Progress, outcomes: Seq<bool>)
    requires
        p.wf(),
        p.op == DrawOp::Save,
        all_ok(outcomes),
        outcomes.len() >= p.remaining(),
    ensures
        p.trace(outcomes) == frame(p.word, p.words),
    decreases p.words - p.word,
{
    if !p.finished() {
        let rest1 = outcomes.drop_first();
        let rest2 = rest1.drop_first();
        let rest3 = rest2.drop_first();
        let rest4 = rest3.drop_first();
        let rest5 = rest4.drop_first();
        let then1 = p.advance(outcomes[0]);
        let then2 = then1.advance(rest1[0]);
        let then3 = then2.advance(rest2[0]);
        let then4 = then3.advance(rest3[0]);
        let then5 = then4.advance(rest4[0]);
        lemma_frame_without_failure(then5, rest5);
        assert(then4.trace(rest4) =~= seq![then4.current()] + then5.trace(rest5));
        assert(then3.trace(rest3) =~= seq![then3.current()] + then4.trace(rest4));
        assert(then2.trace(rest2) =~= seq![then2.current()] + then3.trace(rest3));
        assert(then1.trace(rest1) =~= seq![then1.current()] + then2.trace(rest2));
        assert(p.trace(outcomes) =~= seq![p.current()] + then1.trace(rest1));
    }
}

} // verus!
