//! The snake itself: an ordered body of grid positions behind a head, a
//! committed direction, a queued pending direction, and the outcome of the
//! last advance, together with the food it chases.

use std::collections::VecDeque;
use vstd::prelude::*;
use crate::grid::{Direction, GridPosition};
verus! {

/// The fixed visual identity of each kind of cell, for the external
/// renderer to map to whatever colors it draws with.
#[derive(Clone, Copy, PartialEq, Eq, Structural, Debug)]
pub enum ColorTag {
    Background,
    SnakeHead,
    SnakeBody,
    Food,
}

/// One cell of the snake's body.
#[derive(Clone, Copy, PartialEq, Eq, Structural, Debug)]
pub struct Segment {
    pub pos: GridPosition,
}

impl Segment {
    pub fn new(pos: GridPosition) -> (s: Segment)
        ensures
            s.pos == pos,
    {
        Segment { pos }
    }
}

/// The single piece of food on the grid; relocated each time it is eaten.
#[derive(Clone, Copy, PartialEq, Eq, Structural, Debug)]
pub struct Food {
    pub pos: GridPosition,
}

impl Food {
    pub fn new(pos: GridPosition) -> (f: Food)
        ensures
            f.pos == pos,
    {
        Food { pos }
    }

    /// Overwrites the food's position with a freshly drawn random one.
    /// Nothing keeps it off the snake's body; that matches how the game
    /// has always respawned food.
    pub fn relocate(&mut self, rng: &mut oorandom::Rand32, w: i16, h: i16)
        requires
            0 < w,
            0 < h,
        ensures
            final(self).pos.in_bounds(w as int, h as int),
    {
        self.pos = GridPosition::random(rng, w, h);
    }

    /// The food's cell and its fixed color identity; a pure read for the
    /// external renderer.
    pub fn render_hint(&self) -> (r: (GridPosition, ColorTag))
        ensures
            r == (self.pos, ColorTag::Food),
    {
        (self.pos, ColorTag::Food)
    }
}

/// What the snake ate on the last advance, if anything.
#[derive(Clone, Copy, PartialEq, Eq, Structural, Debug)]
pub enum Ate {
    Itself,
    Food,
}

/// The snake. The body is ordered: the front (index 0) is the cell the head
/// most recently vacated, the back is the tail that gets dropped on an
/// ordinary step.
pub struct Snake {
    pub head: Segment,
    pub dir: Direction,
    pub body: VecDeque<Segment>,
    pub ate: Option<Ate>,
    pub last_update_dir: Direction,
    pub next_dir: Option<Direction>,
}

impl Snake {
    /// Head and every body segment lie on a `w` by `h` grid.
    pub open spec fn wf(self, w: int, h: int) -> bool {
        &&& self.head.pos.in_bounds(w, h)
        &&& forall|i: int|
            0 <= i < self.body@.len() ==> (#[trigger] self.body@[i]).pos.in_bounds(w, h)
    }

    /// Some segment of `body` occupies position `p`.
    pub open spec fn seq_contains_pos(body: Seq<Segment>, p: GridPosition) -> bool {
        exists|i: int| 0 <= i < body.len() && body[i].pos == p
    }

    /// The head coordinate coincides with a body segment: the terminal
    /// self-collision condition.
    pub open spec fn spec_eats_self(self) -> bool {
        Snake::seq_contains_pos(self.body@, self.head.pos)
    }

    /// A queued direction change is promoted on the next advance exactly when
    /// the previous tick's change (if any) has already taken effect.
    pub open spec fn promotes_pending(self) -> bool {
        self.last_update_dir == self.dir && self.next_dir is Some
    }

    /// The direction the next advance will commit and move in.
    pub open spec fn step_dir(self) -> Direction {
        if self.promotes_pending() {
            self.next_dir->Some_0
        } else {
            self.dir
        }
    }

    /// The committed direction never points back into the neck, and neither
    /// does a queued direction once it is promoted. This holds initially and
    /// is preserved by every advance; an input preserves it as long as no
    /// older direction change is still queued when the input arrives.
    pub open spec fn direction_discipline(self) -> bool {
        &&& self.dir != self.last_update_dir.spec_inverse()
        &&& (self.next_dir matches Some(nd) ==> nd.spec_inverse() != self.dir)
    }

    /// The directions and queue an input `d` leaves behind: queue it if a
    /// change is already in effect and `d` does not reverse the committed
    /// direction; otherwise commit it directly unless it reverses the
    /// last-applied direction; otherwise ignore it.
    pub open spec fn after_input(self, d: Direction) -> Snake {
        if self.dir != self.last_update_dir && d.spec_inverse() != self.dir {
            Snake { next_dir: Some(d), ..self }
        } else if d.spec_inverse() != self.last_update_dir {
            Snake { dir: d, ..self }
        } else {
            self
        }
    }

    /// The body after an advance: the old head is pushed on the front, and
    /// the tail is dropped unless something was eaten.
    pub open spec fn spec_body_after(self, food_pos: GridPosition, w: int, h: int) -> Seq<Segment> {
        let grown = seq![self.head] + self.body@;
        if self.spec_outcome(food_pos, w, h) is None {
            grown.drop_last()
        } else {
            grown
        }
    }

    /// The outcome of an advance: self-collision if the new head lands on the
    /// grown body (old head included), else food if it lands on the food,
    /// else nothing.
    pub open spec fn spec_outcome(self, food_pos: GridPosition, w: int, h: int) -> Option<Ate> {
        let new_head = self.head.pos.moved_by(self.step_dir(), w, h);
        let grown = seq![self.head] + self.body@;
        if Snake::seq_contains_pos(grown, new_head) {
            Some(Ate::Itself)
        } else if new_head == food_pos {
            Some(Ate::Food)
        } else {
            None
        }
    }

    /// A new snake: head at `pos`, one body segment one column back on the
    /// same row (not wrapped), heading right, nothing queued, nothing eaten.
    pub fn new(pos: GridPosition) -> (s: Snake)
        requires
            pos.x > i16::MIN,
        ensures
            s.head.pos == pos,
            s.dir == Direction::Right,
            s.last_update_dir == Direction::Right,
            s.next_dir is None,
            s.ate is None,
            s.body@.len() == 1,
            s.body@[0].pos == (GridPosition { x: (pos.x - 1) as i16, y: pos.y }),
            s.direction_discipline(),
            !s.spec_eats_self(),
    {
        let mut body: VecDeque<Segment> = VecDeque::new();
        body.push_back(Segment::new(GridPosition::new(pos.x - 1, pos.y)));
        Snake {
            head: Segment::new(pos),
            dir: Direction::Right,
            last_update_dir: Direction::Right,
            body,
            ate: None,
            next_dir: None,
        }
    }

    /// Whether the head sits on the food.
    pub fn eats(&self, food: &Food) -> (r: bool)
        ensures
            r == (self.head.pos == food.pos),
    {
        self.head.pos == food.pos
    }

    /// Whether the head sits on any body segment.
    pub fn eats_self(&self) -> (r: bool)
        ensures
            r == self.spec_eats_self(),
    {
        let n = self.body.len();
        let mut i: usize = 0;
        while i < n
            invariant
                n == self.body@.len(),
                i <= n,
                forall|j: int| 0 <= j < i ==> (#[trigger] self.body@[j]).pos != self.head.pos,
            decreases n - i,
        {
            if self.body[i].pos == self.head.pos {
                return true;
            }
            i = i + 1;
        }
        false
    }

    /// One input event. The two-tier rule keeps the snake from being
    /// reversed into its own neck within a single tick window while still
    /// letting rapid taps queue across ticks.
    pub fn set_pending_direction(&mut self, d: Direction)
        ensures
            *final(self) == old(self).after_input(d),
            final(self).head == old(self).head,
            final(self).body@ == old(self).body@,
            final(self).ate == old(self).ate,
            final(self).last_update_dir == old(self).last_update_dir,
            old(self).dir != old(self).last_update_dir.spec_inverse()
                ==> final(self).dir != final(self).last_update_dir.spec_inverse(),
            (old(self).direction_discipline() && old(self).next_dir is None)
                ==> final(self).direction_discipline(),
    {
        let inv = d.inverse();
        if self.dir != self.last_update_dir && inv != self.dir {
            self.next_dir = Some(d);
        } else if inv != self.last_update_dir {
            self.dir = d;
        }
    }

    /// One simulation step against the current food: promote a queued
    /// direction if eligible, move the head one cell with wrap-around, push
    /// the old head onto the body, record what was eaten, and drop the tail
    /// unless something was.
    pub fn update(&mut self, food: &Food, w: i16, h: i16)
        requires
            0 < w,
            0 < h,
            old(self).wf(w as int, h as int),
        ensures
            final(self).dir == old(self).step_dir(),
            final(self).last_update_dir == old(self).step_dir(),
            final(self).next_dir == (if old(self).promotes_pending() {
                Option::<Direction>::None
            } else {
                old(self).next_dir
            }),
            final(self).head.pos == old(self).head.pos.moved_by(
                old(self).step_dir(), w as int, h as int),
            final(self).ate == old(self).spec_outcome(food.pos, w as int, h as int),
            final(self).body@ == old(self).spec_body_after(food.pos, w as int, h as int),
            final(self).wf(w as int, h as int),
            final(self).ate is None ==> final(self).body@.len() == old(self).body@.len(),
            final(self).ate is Some ==> final(self).body@.len() == old(self).body@.len() + 1,
            final(self).spec_eats_self() <==> final(self).ate == Some(Ate::Itself),
            old(self).direction_discipline()
                ==> final(self).dir != old(self).last_update_dir.spec_inverse(),
            old(self).direction_discipline() ==> final(self).direction_discipline(),
    {
        if self.last_update_dir == self.dir && self.next_dir.is_some() {
            self.dir = self.next_dir.unwrap();
            self.next_dir = None;
        }
        let new_head_pos = GridPosition::new_from_move(self.head.pos, self.dir, w, h);
        let new_head = Segment::new(new_head_pos);
        self.body.push_front(self.head);
        self.head = new_head;
        if self.eats_self() {
            self.ate = Some(Ate::Itself);
        } else if self.eats(food) {
            self.ate = Some(Ate::Food);
        } else {
            self.ate = None;
        }
        if self.ate.is_none() {
            self.body.pop_back();
        }
        self.last_update_dir = self.dir;
    }

    /// The head's cell and its fixed color identity; a pure read for the
    /// external renderer.
    pub fn head_render_hint(&self) -> (r: (GridPosition, ColorTag))
        ensures
            r == (self.head.pos, ColorTag::SnakeHead),
    {
        (self.head.pos, ColorTag::SnakeHead)
    }

    /// One cell and fixed color identity per body segment, front first; a
    /// pure read for the external renderer.
    pub fn body_render_hints(&self) -> (r: Vec<(GridPosition, ColorTag)>)
        ensures
            r@.len() == self.body@.len(),
            forall|i: int|
                0 <= i < r@.len() ==> r@[i] == (self.body@[i].pos, ColorTag::SnakeBody),
    {
        let n = self.body.len();
        let mut r: Vec<(GridPosition, ColorTag)> = Vec::new();
        let mut i: usize = 0;
        while i < n
            invariant
                n == self.body@.len(),
                i <= n,
                r@.len() == i,
                forall|j: int|
                    0 <= j < i ==> r@[j] == (self.body@[j].pos, ColorTag::SnakeBody),
            decreases n - i,
        {
            r.push((self.body[i].pos, ColorTag::SnakeBody));
            i = i + 1;
        }
        r
    }
}

/// Law: no single-tick self-reversal. From any snake whose committed
/// direction does not reverse the last-applied one and with nothing queued,
/// whatever key is pressed, the direction the next advance commits is not the
/// exact reverse of the previously applied direction.
pub proof fn lemma_no_single_tick_reversal(s: Snake, d: Direction)
    requires
        s.dir != s.last_update_dir.spec_inverse(),
        s.next_dir is None,
    ensures
        s.after_input(d).step_dir() != s.last_update_dir.spec_inverse(),
{
}

/// Law: from any snake obeying the direction discipline, the next advance
/// never commits the exact reverse of the previously applied direction.
pub proof fn lemma_advance_no_reversal(s: Snake)
    requires
        s.direction_discipline(),
    ensures
        s.step_dir() != s.last_update_dir.spec_inverse(),
{
}

} // verus!
