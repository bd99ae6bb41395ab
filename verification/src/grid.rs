//! Grid coordinates on a fixed-size toroidal grid, cardinal directions, and
//! the abstract input keys that map to them.

use vstd::prelude::*;
use vstd::arithmetic::div_mod::{lemma_mod_add_multiples_vanish, lemma_small_mod};
use crate::rng::{rand_range_u32, thread_range_i16};

verus! {

/// A position on the grid. A position is well formed for a `w` by `h` grid
/// when both coordinates lie in `[0, w) x [0, h)`; movement preserves that
/// by wrap-around (true mathematical modulo).
#[derive(Clone, Copy, PartialEq, Eq, Structural, Debug)]
pub struct GridPosition {
    pub x: i16,
    pub y: i16,
}

/// One of the four cardinal directions of movement.
#[derive(Clone, Copy, PartialEq, Eq, Structural, Debug)]
pub enum Direction {
    Up,
    Down,
    Left,
    Right,
}

/// An abstract input key, as the event loop hands it in. Only the four
/// arrow-equivalent keys steer the snake; every other key is `Other`.
#[derive(Clone, Copy, PartialEq, Eq, Structural, Debug)]
pub enum InputKey {
    ArrowUp,
    ArrowDown,
    ArrowLeft,
    ArrowRight,
    Other,
}

impl GridPosition {
    /// Both coordinates lie on a `w` by `h` grid.
    pub open spec fn in_bounds(self, w: int, h: int) -> bool {
        &&& 0 <= self.x < w
        &&& 0 <= self.y < h
    }

    /// The position one cell away in direction `dir`, each axis wrapped
    /// modulo its grid dimension (`%` on `int` is Euclidean, so a step off
    /// the low edge wraps to `dimension - 1`).
    pub open spec fn moved_by(self, dir: Direction, w: int, h: int) -> GridPosition {
        match dir {
            Direction::Up => GridPosition { x: self.x, y: ((self.y - 1) % h) as i16 },
            Direction::Down => GridPosition { x: self.x, y: ((self.y + 1) % h) as i16 },
            Direction::Left => GridPosition { x: ((self.x - 1) % w) as i16, y: self.y },
            Direction::Right => GridPosition { x: ((self.x + 1) % w) as i16, y: self.y },
        }
    }

    pub fn new(x: i16, y: i16) -> (p: GridPosition)
        ensures
            p == (GridPosition { x, y }),
    {
        GridPosition { x, y }
    }

    /// A position drawn from `rng`, x uniformly in `[0, max_x)` and y
    /// uniformly in `[0, max_y)`, independently. Advances the generator's
    /// state. Nothing constrains where the position lands beyond the bounds.
    pub fn random(rng: &mut oorandom::Rand32, max_x: i16, max_y: i16) -> (p: GridPosition)
        requires
            0 < max_x,
            0 < max_y,
        ensures
            p.in_bounds(max_x as int, max_y as int),
    {
        let x = rand_range_u32(rng, 0, max_x as u32) as i16;
        let y = rand_range_u32(rng, 0, max_y as u32) as i16;
        GridPosition { x, y }
    }

    /// A position drawn from the thread-local generator, x uniformly in
    /// `[0, max_x)` and y uniformly in `[0, max_y)`, independently.
    pub fn random_thread(max_x: i16, max_y: i16) -> (p: GridPosition)
        requires
            0 < max_x,
            0 < max_y,
        ensures
            p.in_bounds(max_x as int, max_y as int),
    {
        let x = thread_range_i16(max_x);
        let y = thread_range_i16(max_y);
        GridPosition { x, y }
    }

    /// One step from `pos` in direction `dir` on a `w` by `h` grid.
    pub fn new_from_move(pos: GridPosition, dir: Direction, w: i16, h: i16) -> (p: GridPosition)
        requires
            0 < w,
            0 < h,
            pos.in_bounds(w as int, h as int),
        ensures
            p == pos.moved_by(dir, w as int, h as int),
            p.in_bounds(w as int, h as int),
    {
        match dir {
            Direction::Up => {
                let ny: i16 = if pos.y == 0 { h - 1 } else { pos.y - 1 };
                proof { lemma_wrap_dec(pos.y as int, h as int); }
                GridPosition { x: pos.x, y: ny }
            },
            Direction::Down => {
                let ny: i16 = if pos.y == h - 1 { 0 } else { pos.y + 1 };
                proof { lemma_wrap_inc(pos.y as int, h as int); }
                GridPosition { x: pos.x, y: ny }
            },
            Direction::Left => {
                let nx: i16 = if pos.x == 0 { w - 1 } else { pos.x - 1 };
                proof { lemma_wrap_dec(pos.x as int, w as int); }
                GridPosition { x: nx, y: pos.y }
            },
            Direction::Right => {
                let nx: i16 = if pos.x == w - 1 { 0 } else { pos.x + 1 };
                proof { lemma_wrap_inc(pos.x as int, w as int); }
                GridPosition { x: nx, y: pos.y }
            },
        }
    }
}

/// Stepping down by one and wrapping is Euclidean modulo.
proof fn lemma_wrap_dec(v: int, m: int)
    requires
        0 < m,
        0 <= v < m,
    ensures
        (v - 1) % m == if v == 0 { m - 1 } else { v - 1 },
{
    if v == 0 {
        lemma_mod_add_multiples_vanish(-1, m);
        lemma_small_mod((m - 1) as nat, m as nat);
    } else {
        lemma_small_mod((v - 1) as nat, m as nat);
    }
}

/// Stepping up by one and wrapping is Euclidean modulo.
proof fn lemma_wrap_inc(v: int, m: int)
    requires
        0 < m,
        0 <= v < m,
    ensures
        (v + 1) % m == if v == m - 1 { 0 } else { v + 1 },
{
    if v == m - 1 {
        lemma_mod_add_multiples_vanish(0, m);
        lemma_small_mod(0nat, m as nat);
    } else {
        lemma_small_mod((v + 1) as nat, m as nat);
    }
}

/// Law: a move never leaves the grid. For every direction and every position
/// on a `w` by `h` grid, the moved position is on the grid too.
pub proof fn lemma_move_in_bounds(pos: GridPosition, dir: Direction, w: int, h: int)
    requires
        0 < w <= i16::MAX,
        0 < h <= i16::MAX,
        pos.in_bounds(w, h),
    ensures
        pos.moved_by(dir, w, h).in_bounds(w, h),
{
    match dir {
        Direction::Up => lemma_wrap_dec(pos.y as int, h),
        Direction::Down => lemma_wrap_inc(pos.y as int, h),
        Direction::Left => lemma_wrap_dec(pos.x as int, w),
        Direction::Right => lemma_wrap_inc(pos.x as int, w),
    }
}

/// Law: moving in a direction and then in its inverse returns to the starting
/// position (wrap-around round trip).
pub proof fn lemma_move_round_trip(pos: GridPosition, dir: Direction, w: int, h: int)
    requires
        0 < w <= i16::MAX,
        0 < h <= i16::MAX,
        pos.in_bounds(w, h),
    ensures
        pos.moved_by(dir, w, h).moved_by(dir.spec_inverse(), w, h) == pos,
{
    lemma_move_in_bounds(pos, dir, w, h);
    let p1 = pos.moved_by(dir, w, h);
    match dir {
        Direction::Up => {
            lemma_wrap_dec(pos.y as int, h);
            lemma_wrap_inc(p1.y as int, h);
        },
        Direction::Down => {
            lemma_wrap_inc(pos.y as int, h);
            lemma_wrap_dec(p1.y as int, h);
        },
        Direction::Left => {
            lemma_wrap_dec(pos.x as int, w);
            lemma_wrap_inc(p1.x as int, w);
        },
        Direction::Right => {
            lemma_wrap_inc(pos.x as int, w);
            lemma_wrap_dec(p1.x as int, w);
        },
    }
}

impl Direction {
    /// The opposite cardinal direction.
    pub open spec fn spec_inverse(self) -> Direction {
        match self {
            Direction::Up => Direction::Down,
            Direction::Down => Direction::Up,
            Direction::Left => Direction::Right,
            Direction::Right => Direction::Left,
        }
    }

    pub fn inverse(self) -> (r: Direction)
        ensures
            r == self.spec_inverse(),
    {
        match self {
            Direction::Up => Direction::Down,
            Direction::Down => Direction::Up,
            Direction::Left => Direction::Right,
            Direction::Right => Direction::Left,
        }
    }

    /// The direction an input key asks for, if it asks for one at all.
    pub open spec fn spec_from_keycode(key: InputKey) -> Option<Direction> {
        match key {
            InputKey::ArrowUp => Some(Direction::Up),
            InputKey::ArrowDown => Some(Direction::Down),
            InputKey::ArrowLeft => Some(Direction::Left),
            InputKey::ArrowRight => Some(Direction::Right),
            InputKey::Other => None,
        }
    }

    /// Maps the four arrow-equivalent keys to a direction; any other key
    /// yields no direction, to be silently ignored by the caller.
    pub fn from_keycode(key: InputKey) -> (r: Option<Direction>)
        ensures
            r == Direction::spec_from_keycode(key),
    {
        match key {
            InputKey::ArrowUp => Some(Direction::Up),
            InputKey::ArrowDown => Some(Direction::Down),
            InputKey::ArrowLeft => Some(Direction::Left),
            InputKey::ArrowRight => Some(Direction::Right),
            InputKey::Other => None,
        }
    }
}

/// Law: inverting a direction twice gives the direction back, and no
/// direction is its own inverse.
pub proof fn lemma_inverse_involution(dir: Direction)
    ensures
        dir.spec_inverse().spec_inverse() == dir,
        dir.spec_inverse() != dir,
{
}

} // verus!
