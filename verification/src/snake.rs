//! The snake: an ordered sequence of occupied cells (head first) and a heading.

use vstd::prelude::*;
use vstd::pervasive::VecAdditionalExecFns;

use crate::geom::{delta, step, Direction, Vec2};

verus! {

/// One move of the whole body: every segment takes its predecessor's cell and
/// the head moves one cell along `d`.
pub open spec fn advanced(segs: Seq<Vec2>, d: Direction) -> Seq<Vec2>
    recommends
        segs.len() >= 1,
{
    Seq::new(segs.len(), |i: int| if i == 0 { step(segs[0], d) } else { segs[i - 1] })
}

/// Growth: a new segment appears on the tail's cell.
pub open spec fn grown(segs: Seq<Vec2>) -> Seq<Vec2>
    recommends
        segs.len() >= 1,
{
    segs.push(segs.last())
}

/// Some non-head segment sits on the head's cell.
pub open spec fn self_colliding(segs: Seq<Vec2>) -> bool {
    exists|k: int| 1 <= k < segs.len() && #[trigger] segs[k] == segs[0]
}

/// Snake game object.
#[derive(Clone, Eq, PartialEq, Debug)]
pub struct Snake {
    positions: Vec<Vec2>,
    direction: Direction,
}

impl Snake {
    /// The occupied cells, head first.
    pub closed spec fn segments(self) -> Seq<Vec2> {
        self.positions@
    }

    /// The current heading.
    pub closed spec fn heading(self) -> Direction {
        self.direction
    }

    /// A snake always has at least one segment.
    pub open spec fn wf(self) -> bool {
        self.segments().len() >= 1
    }

    /// The head's cell.
    pub open spec fn head_spec(self) -> Vec2 {
        self.segments()[0]
    }

    /// A one-segment snake at `position`, facing `direction`.
    pub fn new(position: Vec2, direction: Direction) -> (r: Snake)
        ensures
            r.segments() == seq![position],
            r.heading() == direction,
            r.wf(),
    {
        let mut positions: Vec<Vec2> = Vec::new();
        positions.push(position);
        proof {
            assert(positions@ =~= seq![position]);
        }
        Snake { positions, direction }
    }

    /// Number of segments.
    pub fn len(&self) -> (r: usize)
        ensures
            r == self.segments().len(),
    {
        self.positions.len()
    }

    /// The head's cell.
    pub fn head(&self) -> (r: Vec2)
        requires
            self.wf(),
        ensures
            r == self.head_spec(),
    {
        self.positions[0]
    }

    /// The cell of segment `i` (0 is the head).
    pub fn segment(&self, i: usize) -> (r: Vec2)
        requires
            i < self.segments().len(),
        ensures
            r == self.segments()[i as int],
    {
        self.positions[i]
    }

    /// The current heading.
    pub fn direction(&self) -> (r: Direction)
        ensures
            r == self.heading(),
    {
        self.direction
    }

    /// Turn the snake without moving it.
    pub fn set_direction(&mut self, d: Direction)
        ensures
            final(self).segments() == old(self).segments(),
            final(self).heading() == d,
    {
        self.direction = d;
    }

    /// Move one step: each segment follows its predecessor, the head advances
    /// along the heading. The body is shifted from the tail toward the head so
    /// that no cell is overwritten before it is read.
    pub fn update(&mut self)
        requires
            old(self).wf(),
            i32::MIN <= old(self).head_spec().x + delta(old(self).heading()).x <= i32::MAX,
            i32::MIN <= old(self).head_spec().y + delta(old(self).heading()).y <= i32::MAX,
        ensures
            final(self).segments() == advanced(old(self).segments(), old(self).heading()),
            final(self).heading() == old(self).heading(),
            final(self).wf(),
    {
        let ghost segs0 = self.positions@;
        let len = self.positions.len();
        let mut i: usize = len;
        while i > 1
            invariant
                1 <= i <= len,
                len == segs0.len(),
                len >= 1,
                self.positions@.len() == len,
                self.direction == old(self).heading(),
                forall|j: int| 0 <= j < i ==> self.positions@[j] == segs0[j],
                forall|j: int| i <= j < len ==> self.positions@[j] == segs0[j - 1],
            decreases i,
        {
            i = i - 1;
            let p = self.positions[i - 1];
            self.positions.set(i, p);
        }
        let d = self.direction.to_delta();
        let new_head = self.positions[0].add(d);
        self.positions.set(0, new_head);
        proof {
            assert(self.positions@ =~= advanced(segs0, old(self).heading()));
        }
    }

    /// True iff some non-head segment sits on the head's cell.
    pub fn is_colliding_self(&self) -> (r: bool)
        requires
            self.wf(),
        ensures
            r == self_colliding(self.segments()),
    {
        let head = self.positions[0];
        let mut i: usize = 1;
        while i < self.positions.len()
            invariant
                1 <= i <= self.segments().len(),
                self.wf(),
                head == self.head_spec(),
                forall|j: int| 1 <= j < i ==> #[trigger] self.segments()[j] != self.segments()[0],
            decreases self.segments().len() - i,
        {
            if self.positions[i] == head {
                return true;
            }
            i = i + 1;
        }
        false
    }

    /// Append a new segment on the tail's cell; it starts moving on the next
    /// update, so growth becomes visible one tick after eating.
    pub fn grow(&mut self)
        requires
            old(self).wf(),
        ensures
            final(self).segments() == grown(old(self).segments()),
            final(self).heading() == old(self).heading(),
            final(self).wf(),
    {
        let tail_pos = self.positions[self.positions.len() - 1];
        self.positions.push(tail_pos);
    }
}

} // verus!
