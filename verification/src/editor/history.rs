//! Undo/redo history of editor actions.
//!
//! Speeds and annotation coordinates are `f32` bit patterns (see
//! `project::persistence`); an inverse only swaps them, so no arithmetic
//! on them is needed.

use vstd::prelude::*;
use crate::editor::speed::{f32_bits_eq, f32_bits_equal};
use crate::project::persistence::{
    annotations_eq, zoom_regions_eq, Annotation, TrimSegment, ZoomRegion,
};

verus! {

/// An edit that can be undone.
#[derive(Debug, Clone)]
pub enum EditorAction {
    AddTrim(TrimSegment),
    RemoveTrim { index: usize, segment: TrimSegment },
    AddZoomRegion(ZoomRegion),
    RemoveZoomRegion { index: usize, region: ZoomRegion },
    AddAnnotation(Annotation),
    RemoveAnnotation { index: usize, annotation: Annotation },
    MoveAnnotation { index: usize, old_x: u32, old_y: u32, new_x: u32, new_y: u32 },
    SetSpeed { old_speed: u32, new_speed: u32 },
}

/// Whether two actions are equal as the editor compares them: the same
/// kind with equal contents, positions and speeds compared as `f32`.
pub open spec fn actions_eq(a: EditorAction, b: EditorAction) -> bool {
    match (a, b) {
        (EditorAction::AddTrim(x), EditorAction::AddTrim(y)) => x == y,
        (
            EditorAction::RemoveTrim { index: i, segment: x },
            EditorAction::RemoveTrim { index: j, segment: y },
        ) => i == j && x == y,
        (EditorAction::AddZoomRegion(x), EditorAction::AddZoomRegion(y)) => zoom_regions_eq(x, y),
        (
            EditorAction::RemoveZoomRegion { index: i, region: x },
            EditorAction::RemoveZoomRegion { index: j, region: y },
        ) => i == j && zoom_regions_eq(x, y),
        (EditorAction::AddAnnotation(x), EditorAction::AddAnnotation(y)) => annotations_eq(x, y),
        (
            EditorAction::RemoveAnnotation { index: i, annotation: x },
            EditorAction::RemoveAnnotation { index: j, annotation: y },
        ) => i == j && annotations_eq(x, y),
        (
            EditorAction::MoveAnnotation { index: i, old_x: a1, old_y: a2, new_x: a3, new_y: a4 },
            EditorAction::MoveAnnotation { index: j, old_x: b1, old_y: b2, new_x: b3, new_y: b4 },
        ) => i == j && f32_bits_eq(a1, b1) && f32_bits_eq(a2, b2) && f32_bits_eq(a3, b3)
            && f32_bits_eq(a4, b4),
        (
            EditorAction::SetSpeed { old_speed: a1, new_speed: a2 },
            EditorAction::SetSpeed { old_speed: b1, new_speed: b2 },
        ) => f32_bits_eq(a1, b1) && f32_bits_eq(a2, b2),
        _ => false,
    }
}

impl PartialEq for EditorAction {
    /// The same kind of action with equal contents (positions and speeds
    /// compared as `f32`).
    fn eq(&self, other: &Self) -> (r: bool) {
        match (self, other) {
            (EditorAction::AddTrim(x), EditorAction::AddTrim(y)) => x == y,
            (
                EditorAction::RemoveTrim { index: i, segment: x },
                EditorAction::RemoveTrim { index: j, segment: y },
            ) => *i == *j && x == y,
            (EditorAction::AddZoomRegion(x), EditorAction::AddZoomRegion(y)) => x.eq(y),
            (
                EditorAction::RemoveZoomRegion { index: i, region: x },
                EditorAction::RemoveZoomRegion { index: j, region: y },
            ) => *i == *j && x.eq(y),
            (EditorAction::AddAnnotation(x), EditorAction::AddAnnotation(y)) => x.eq(y),
            (
                EditorAction::RemoveAnnotation { index: i, annotation: x },
                EditorAction::RemoveAnnotation { index: j, annotation: y },
            ) => *i == *j && x.eq(y),
            (
                EditorAction::MoveAnnotation { index: i, old_x: a1, old_y: a2, new_x: a3, new_y: a4 },
                EditorAction::MoveAnnotation { index: j, old_x: b1, old_y: b2, new_x: b3, new_y: b4 },
            ) => *i == *j && f32_bits_equal(*a1, *b1) && f32_bits_equal(*a2, *b2) && f32_bits_equal(
                *a3,
                *b3,
            ) && f32_bits_equal(*a4, *b4),
            (
                EditorAction::SetSpeed { old_speed: a1, new_speed: a2 },
                EditorAction::SetSpeed { old_speed: b1, new_speed: b2 },
            ) => f32_bits_equal(*a1, *b1) && f32_bits_equal(*a2, *b2),
            _ => false,
        }
    }
}

impl vstd::std_specs::cmp::PartialEqSpecImpl for EditorAction {
    open spec fn obeys_eq_spec() -> bool {
        true
    }

    open spec fn eq_spec(&self, other: &Self) -> bool {
        actions_eq(*self, *other)
    }
}

/// The action that undoes `a`. An added item is removed again (the
/// removal records index 0); a removed item is added back; a move or a
/// speed change swaps its old and new values.
pub open spec fn inverse_of(a: EditorAction) -> EditorAction {
    match a {
        EditorAction::AddTrim(seg) => EditorAction::RemoveTrim { index: 0, segment: seg },
        EditorAction::RemoveTrim { index, segment } => EditorAction::AddTrim(segment),
        EditorAction::AddZoomRegion(region) => EditorAction::RemoveZoomRegion { index: 0, region },
        EditorAction::RemoveZoomRegion { index, region } => EditorAction::AddZoomRegion(region),
        EditorAction::AddAnnotation(ann) => EditorAction::RemoveAnnotation {
            index: 0,
            annotation: ann,
        },
        EditorAction::RemoveAnnotation { index, annotation } => EditorAction::AddAnnotation(
            annotation,
        ),
        EditorAction::MoveAnnotation { index, old_x, old_y, new_x, new_y } =>
            EditorAction::MoveAnnotation {
            index,
            old_x: new_x,
            old_y: new_y,
            new_x: old_x,
            new_y: old_y,
        },
        EditorAction::SetSpeed { old_speed, new_speed } => EditorAction::SetSpeed {
            old_speed: new_speed,
            new_speed: old_speed,
        },
    }
}

/// Whether `a` removes an item at a recorded index.
pub open spec fn is_removal(a: EditorAction) -> bool {
    match a {
        EditorAction::RemoveTrim { .. } => true,
        EditorAction::RemoveZoomRegion { .. } => true,
        EditorAction::RemoveAnnotation { .. } => true,
        _ => false,
    }
}

/// `a` with the index of a removal reset to 0.
pub open spec fn with_index_zero(a: EditorAction) -> EditorAction {
    match a {
        EditorAction::RemoveTrim { index, segment } => EditorAction::RemoveTrim { index: 0, segment },
        EditorAction::RemoveZoomRegion { index, region } => EditorAction::RemoveZoomRegion {
            index: 0,
            region,
        },
        EditorAction::RemoveAnnotation { index, annotation } => EditorAction::RemoveAnnotation {
            index: 0,
            annotation,
        },
        _ => a,
    }
}

impl EditorAction {
    /// An equal copy of the action.
    pub fn duplicate(&self) -> (copy: Self)
        ensures
            copy == *self,
    {
        match self {
            EditorAction::AddTrim(seg) => EditorAction::AddTrim(*seg),
            EditorAction::RemoveTrim { index, segment } => EditorAction::RemoveTrim {
                index: *index,
                segment: *segment,
            },
            EditorAction::AddZoomRegion(region) => EditorAction::AddZoomRegion(*region),
            EditorAction::RemoveZoomRegion { index, region } => EditorAction::RemoveZoomRegion {
                index: *index,
                region: *region,
            },
            EditorAction::AddAnnotation(ann) => EditorAction::AddAnnotation(ann.duplicate()),
            EditorAction::RemoveAnnotation { index, annotation } =>
                EditorAction::RemoveAnnotation { index: *index, annotation: annotation.duplicate() },
            EditorAction::MoveAnnotation { index, old_x, old_y, new_x, new_y } =>
                EditorAction::MoveAnnotation {
                index: *index,
                old_x: *old_x,
                old_y: *old_y,
                new_x: *new_x,
                new_y: *new_y,
            },
            EditorAction::SetSpeed { old_speed, new_speed } => EditorAction::SetSpeed {
                old_speed: *old_speed,
                new_speed: *new_speed,
            },
        }
    }

    /// The action that undoes this one.
    pub fn inverse(&self) -> (inv: Self)
        ensures
            inv == inverse_of(*self),
    {
        match self {
            EditorAction::AddTrim(seg) => EditorAction::RemoveTrim { index: 0, segment: *seg },
            EditorAction::RemoveTrim { index, segment } => EditorAction::AddTrim(*segment),
            EditorAction::AddZoomRegion(region) => EditorAction::RemoveZoomRegion {
                index: 0,
                region: *region,
            },
            EditorAction::RemoveZoomRegion { index, region } => EditorAction::AddZoomRegion(
                *region,
            ),
            EditorAction::AddAnnotation(ann) => EditorAction::RemoveAnnotation {
                index: 0,
                annotation: ann.duplicate(),
            },
            EditorAction::RemoveAnnotation { index, annotation } => EditorAction::AddAnnotation(
                annotation.duplicate(),
            ),
            EditorAction::MoveAnnotation { index, old_x, old_y, new_x, new_y } =>
                EditorAction::MoveAnnotation {
                index: *index,
                old_x: *new_x,
                old_y: *new_y,
                new_x: *old_x,
                new_y: *old_y,
            },
            EditorAction::SetSpeed { old_speed, new_speed } => EditorAction::SetSpeed {
                old_speed: *new_speed,
                new_speed: *old_speed,
            },
        }
    }
}

/// Inverting twice gives the action back, except that a removal comes
/// back with its recorded index reset to 0.
pub proof fn law_inverse_twice(a: EditorAction)
    ensures
        inverse_of(inverse_of(a)) == with_index_zero(a),
        !is_removal(a) ==> inverse_of(inverse_of(a)) == a,
{
}

/// The abstract state of a `History`: the undo stack and the redo stack
/// (last element on top) and the capacity of the undo stack.
pub struct HistoryModel {
    pub undo: Seq<EditorAction>,
    pub redo: Seq<EditorAction>,
    pub max_history: nat,
}

impl HistoryModel {
    /// The stacks together never hold more than `max_history` actions.
    pub open spec fn wf(self) -> bool {
        self.undo.len() + self.redo.len() <= self.max_history
    }

    /// After recording `a`: the redo stack is emptied, `a` goes on top of
    /// the undo stack, and the oldest action is dropped when the undo stack
    /// would exceed its capacity.
    pub open spec fn pushed(self, a: EditorAction) -> HistoryModel {
        let u = self.undo.push(a);
        HistoryModel {
            undo: if u.len() > self.max_history {
                u.drop_first()
            } else {
                u
            },
            redo: Seq::empty(),
            max_history: self.max_history,
        }
    }

    /// State after an undo: the top undo action moves to the redo stack.
    pub open spec fn undone(self) -> HistoryModel {
        if self.undo.len() == 0 {
            self
        } else {
            HistoryModel {
                undo: self.undo.drop_last(),
                redo: self.redo.push(self.undo.last()),
                max_history: self.max_history,
            }
        }
    }

    /// What an undo hands back: the inverse of the top undo action.
    pub open spec fn undo_result(self) -> Option<EditorAction> {
        if self.undo.len() == 0 {
            None
        } else {
            Some(inverse_of(self.undo.last()))
        }
    }

    /// State after a redo: the top redo action moves back to the undo stack.
    pub open spec fn redone(self) -> HistoryModel {
        if self.redo.len() == 0 {
            self
        } else {
            HistoryModel {
                undo: self.undo.push(self.redo.last()),
                redo: self.redo.drop_last(),
                max_history: self.max_history,
            }
        }
    }

    /// What a redo hands back: the top redo action itself.
    pub open spec fn redo_result(self) -> Option<EditorAction> {
        if self.redo.len() == 0 {
            None
        } else {
            Some(self.redo.last())
        }
    }
}

/// Bounded undo/redo stacks of editor actions.
pub struct History {
    undo_stack: Vec<EditorAction>,
    redo_stack: Vec<EditorAction>,
    max_history: usize,
}

impl View for History {
    type V = HistoryModel;

    closed spec fn view(&self) -> HistoryModel {
        HistoryModel {
            undo: self.undo_stack@,
            redo: self.redo_stack@,
            max_history: self.max_history as nat,
        }
    }
}

impl History {
    /// An empty history keeping at most `max_history` undo steps.
    pub fn new(max_history: usize) -> (h: Self)
        ensures
            h@.undo == Seq::<EditorAction>::empty(),
            h@.redo == Seq::<EditorAction>::empty(),
            h@.max_history == max_history,
            h@.wf(),
    {
        History { undo_stack: Vec::new(), redo_stack: Vec::new(), max_history }
    }

    /// Records a new action; the redo stack is discarded.
    pub fn push(&mut self, action: EditorAction)
        ensures
            final(self)@ == old(self)@.pushed(action),
    {
        self.redo_stack.clear();
        self.undo_stack.push(action);
        if self.undo_stack.len() > self.max_history {
            self.undo_stack.remove(0);
        }
        proof {
            assert(self@.undo =~= old(self)@.pushed(action).undo);
            assert(self@.redo =~= old(self)@.pushed(action).redo);
        }
    }

    /// Pops the last action and returns its inverse, which the caller applies.
    pub fn undo(&mut self) -> (inv: Option<EditorAction>)
        ensures
            final(self)@ == old(self)@.undone(),
            inv == old(self)@.undo_result(),
    {
        match self.undo_stack.pop() {
            None => {
                assert(self@ == old(self)@.undone());
                None
            },
            Some(action) => {
                let inverse = action.inverse();
                self.redo_stack.push(action);
                proof {
                    assert(self@.undo =~= old(self)@.undone().undo);
                    assert(self@.redo =~= old(self)@.undone().redo);
                }
                Some(inverse)
            },
        }
    }

    /// Pops the last undone action, puts it back on the undo stack and
    /// returns it for the caller to apply again.
    pub fn redo(&mut self) -> (action: Option<EditorAction>)
        ensures
            final(self)@ == old(self)@.redone(),
            action == old(self)@.redo_result(),
    {
        match self.redo_stack.pop() {
            None => {
                assert(self@ == old(self)@.redone());
                None
            },
            Some(action) => {
                let again = action.duplicate();
                self.undo_stack.push(again);
                proof {
                    assert(self@.undo =~= old(self)@.redone().undo);
                    assert(self@.redo =~= old(self)@.redone().redo);
                }
                Some(action)
            },
        }
    }

    /// Whether there is an action to undo.
    pub fn can_undo(&self) -> (b: bool)
        ensures
            b == (self@.undo.len() > 0),
    {
        !self.undo_stack.is_empty()
    }

    /// Whether there is an action to redo.
    pub fn can_redo(&self) -> (b: bool)
        ensures
            b == (self@.redo.len() > 0),
    {
        !self.redo_stack.is_empty()
    }

    /// Number of actions on the undo stack.
    pub fn undo_len(&self) -> (n: usize)
        ensures
            n == self@.undo.len(),
    {
        self.undo_stack.len()
    }

    /// Forgets every action.
    pub fn clear(&mut self)
        ensures
            final(self)@.undo == Seq::<EditorAction>::empty(),
            final(self)@.redo == Seq::<EditorAction>::empty(),
            final(self)@.max_history == old(self)@.max_history,
    {
        self.undo_stack.clear();
        self.redo_stack.clear();
    }
}

impl Default for History {
    /// An empty history of capacity 100.
    fn default() -> (h: Self)
        ensures
            h@.undo == Seq::<EditorAction>::empty(),
            h@.redo == Seq::<EditorAction>::empty(),
            h@.max_history == 100,
            h@.wf(),
    {
        Self::new(100)
    }
}

/// Every operation keeps the stacks within capacity.
pub proof fn law_capacity_kept(h: HistoryModel, a: EditorAction)
    requires
        h.wf(),
    ensures
        h.pushed(a).wf(),
        h.undone().wf(),
        h.redone().wf(),
{
}

/// Recording an action empties the redo stack and puts the action on top
/// of the undo stack.
pub proof fn law_push_clears_redo(h: HistoryModel, a: EditorAction)
    ensures
        h.pushed(a).redo.len() == 0,
        h.max_history > 0 ==> h.pushed(a).undo.last() == a,
{
}

/// Undo right after recording `a` hands back the inverse of `a`
/// (with a capacity of at least one step).
pub proof fn law_undo_after_push(h: HistoryModel, a: EditorAction)
    requires
        h.max_history > 0,
        h.wf(),
    ensures
        h.pushed(a).undo_result() == Some(inverse_of(a)),
        h.pushed(a).undone().redo == seq![a],
{
    assert(h.pushed(a).undo.len() > 0);
}

/// Redo right after an undo hands back the undone action and restores
/// the history as it was before the undo.
pub proof fn law_redo_after_undo(h: HistoryModel)
    requires
        h.undo.len() > 0,
    ensures
        h.undone().redo_result() == Some(h.undo.last()),
        h.undone().redone() == h,
{
    assert(h.undone().redone().undo =~= h.undo);
    assert(h.undone().redone().redo =~= h.redo);
}

/// Undo right after a redo hands back the inverse of the redone action
/// and restores the history as it was before the redo.
pub proof fn law_undo_after_redo(h: HistoryModel)
    requires
        h.redo.len() > 0,
    ensures
        h.redone().undo_result() == Some(inverse_of(h.redo.last())),
        h.redone().undone() == h,
{
    assert(h.redone().undone().undo =~= h.undo);
    assert(h.redone().undone().redo =~= h.redo);
}

} // verus!
