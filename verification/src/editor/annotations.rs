//! Text and arrow annotations placed on the recording.
//!
//! Positions are `f32` bit patterns (see `project::persistence`).

use vstd::prelude::*;
use crate::project::persistence::{Annotation, AnnotationKind};

verus! {

/// Direction an arrow points to.
#[derive(Debug, Clone, Copy, PartialEq, Eq)]
pub enum ArrowDirection {
    Up,
    Down,
    Left,
    Right,
    UpLeft,
    UpRight,
    DownLeft,
    DownRight,
}

/// The name of a direction, as its `Debug` form writes it.
pub open spec fn direction_name(d: ArrowDirection) -> Seq<char> {
    match d {
        ArrowDirection::Up => "Up"@,
        ArrowDirection::Down => "Down"@,
        ArrowDirection::Left => "Left"@,
        ArrowDirection::Right => "Right"@,
        ArrowDirection::UpLeft => "UpLeft"@,
        ArrowDirection::UpRight => "UpRight"@,
        ArrowDirection::DownLeft => "DownLeft"@,
        ArrowDirection::DownRight => "DownRight"@,
    }
}

impl ArrowDirection {
    /// The name of the direction, e.g. `"UpRight"`.
    pub fn name(self) -> (s: String)
        ensures
            s@ == direction_name(self),
    {
        match self {
            ArrowDirection::Up => String::from_str("Up"),
            ArrowDirection::Down => String::from_str("Down"),
            ArrowDirection::Left => String::from_str("Left"),
            ArrowDirection::Right => String::from_str("Right"),
            ArrowDirection::UpLeft => String::from_str("UpLeft"),
            ArrowDirection::UpRight => String::from_str("UpRight"),
            ArrowDirection::DownLeft => String::from_str("DownLeft"),
            ArrowDirection::DownRight => String::from_str("DownRight"),
        }
    }
}

/// The annotations of a project, in the order they were added.
pub struct AnnotationManager {
    pub annotations: Vec<Annotation>,
}

/// The annotations shown at `position_ms`, in order.
pub open spec fn shown_at(annotations: Seq<Annotation>, position_ms: u64) -> Seq<Annotation> {
    annotations.filter(|a: Annotation| a.shown_at(position_ms))
}

impl AnnotationManager {
    /// A manager of the given annotations.
    pub fn new(annotations: Vec<Annotation>) -> (m: Self)
        ensures
            m.annotations@ == annotations@,
    {
        AnnotationManager { annotations }
    }

    /// The annotations on screen at `position_ms` (start inclusive, end exclusive), in order.
    pub fn visible_at(&self, position_ms: u64) -> (v: Vec<&Annotation>)
        ensures
            v@.map_values(|a: &Annotation| *a) == shown_at(self.annotations@, position_ms),
    {
        let mut v: Vec<&Annotation> = Vec::new();
        let mut i: usize = 0;
        while i < self.annotations.len()
            invariant
                i <= self.annotations@.len(),
                v@.map_values(|a: &Annotation| *a) == shown_at(
                    self.annotations@.take(i as int),
                    position_ms,
                ),
            decreases self.annotations@.len() - i,
        {
            let a = &self.annotations[i];
            let ghost before = v@;
            proof {
                assert(self.annotations@.take(i + 1).drop_last() =~= self.annotations@.take(
                    i as int,
                ));
                assert(self.annotations@.take(i + 1).last() == self.annotations@[i as int]);
                assert(self.annotations@.take(i + 1) =~= self.annotations@.take(i as int).push(
                    self.annotations@[i as int],
                ));
                self.annotations@.take(i as int).lemma_filter_push(
                    self.annotations@[i as int],
                    |x: Annotation| x.shown_at(position_ms),
                );
            }
            if a.start_ms <= position_ms && position_ms < a.end_ms {
                v.push(a);
                assert(v@.map_values(|a: &Annotation| *a) =~= before.map_values(
                    |a: &Annotation| *a,
                ).push(*a));
            }
            i = i + 1;
        }
        assert(self.annotations@.take(i as int) =~= self.annotations@);
        v
    }

    /// Adds a text annotation.
    pub fn add_text(&mut self, x: u32, y: u32, content: String, start_ms: u64, end_ms: u64)
        ensures
            final(self).annotations@ == old(self).annotations@.push(
                Annotation { kind: AnnotationKind::Text, start_ms, end_ms, x, y, content },
            ),
    {
        self.annotations.push(
            Annotation { kind: AnnotationKind::Text, start_ms, end_ms, x, y, content },
        );
    }

    /// Adds an arrow annotation; its content is the direction's name.
    pub fn add_arrow(&mut self, x: u32, y: u32, direction: ArrowDirection, start_ms: u64, end_ms: u64)
        ensures
            final(self).annotations@.len() == old(self).annotations@.len() + 1,
            final(self).annotations@.drop_last() == old(self).annotations@,
            final(self).annotations@.last().kind == AnnotationKind::Arrow,
            final(self).annotations@.last().start_ms == start_ms,
            final(self).annotations@.last().end_ms == end_ms,
            final(self).annotations@.last().x == x,
            final(self).annotations@.last().y == y,
            final(self).annotations@.last().content@ == direction_name(direction),
    {
        let content = direction.name();
        self.annotations.push(
            Annotation { kind: AnnotationKind::Arrow, start_ms, end_ms, x, y, content },
        );
        assert(self.annotations@.drop_last() =~= old(self).annotations@);
    }

    /// Removes the annotation at `index`; an index out of range changes nothing.
    pub fn remove(&mut self, index: usize)
        ensures
            index < old(self).annotations@.len() ==> final(self).annotations@ == old(self).annotations@.remove(index as int),
            index >= old(self).annotations@.len() ==> final(self).annotations@ == old(self).annotations@,
    {
        if index < self.annotations.len() {
            self.annotations.remove(index);
        }
    }

    /// Moves the annotation at `index`; an index out of range changes nothing.
    pub fn move_annotation(&mut self, index: usize, new_x: u32, new_y: u32)
        ensures
            index < old(self).annotations@.len() ==> final(self).annotations@ == old(self).annotations@.update(
                index as int,
                Annotation { x: new_x, y: new_y, ..old(self).annotations@[index as int] },
            ),
            index >= old(self).annotations@.len() ==> final(self).annotations@ == old(self).annotations@,
    {
        if index < self.annotations.len() {
            let mut a = self.annotations.remove(index);
            a.x = new_x;
            a.y = new_y;
            self.annotations.insert(index, a);
            assert(self.annotations@ =~= old(self).annotations@.update(
                index as int,
                Annotation { x: new_x, y: new_y, ..old(self).annotations@[index as int] },
            ));
        }
    }

    /// Changes when the annotation at `index` is shown; an index out of
    /// range changes nothing.
    pub fn resize_time(&mut self, index: usize, new_start: u64, new_end: u64)
        ensures
            index < old(self).annotations@.len() ==> final(self).annotations@ == old(self).annotations@.update(
                index as int,
                Annotation { start_ms: new_start, end_ms: new_end, ..old(self).annotations@[index as int] },
            ),
            index >= old(self).annotations@.len() ==> final(self).annotations@ == old(self).annotations@,
    {
        if index < self.annotations.len() {
            let mut a = self.annotations.remove(index);
            a.start_ms = new_start;
            a.end_ms = new_end;
            self.annotations.insert(index, a);
            assert(self.annotations@ =~= old(self).annotations@.update(
                index as int,
                Annotation { start_ms: new_start, end_ms: new_end, ..old(self).annotations@[index as int] },
            ));
        }
    }
}

/// Adding an annotation leaves what was shown at any moment in place and
/// shows the new annotation after it exactly while it is on screen.
pub proof fn law_added_annotation_shown(
    annotations: Seq<Annotation>,
    added: Annotation,
    position_ms: u64,
)
    ensures
        shown_at(annotations.push(added), position_ms) == shown_at(annotations, position_ms) + (
        if added.shown_at(position_ms) {
            seq![added]
        } else {
            seq![]
        }),
{
    annotations.lemma_filter_push(added, |x: Annotation| x.shown_at(position_ms));
    assert(shown_at(annotations.push(added), position_ms) =~= shown_at(annotations, position_ms) + (
    if added.shown_at(position_ms) {
        seq![added]
    } else {
        seq![]
    }));
}

/// Removing the annotation that was added last gives back the annotations
/// as they were before.
pub proof fn law_remove_undoes_add(annotations: Seq<Annotation>, added: Annotation)
    ensures
        annotations.push(added).remove(annotations.len() as int) == annotations,
{
    assert(annotations.push(added).remove(annotations.len() as int) =~= annotations);
}

} // verus!
