//! Toroidal grid geometry: cells, headings, wrap-around stepping and the
//! wrap-aware delta used to judge how two adjacent snake segments relate.

use vstd::prelude::*;

verus! {

/// Number of columns of the arena; every cell has `x < ARENA_WIDTH`.
pub const ARENA_WIDTH: u32 = 8;

/// Number of rows of the arena; every cell has `y < ARENA_HEIGHT`.
pub const ARENA_HEIGHT: u32 = 16;

/// A cell of the grid. Coordinates are only meaningful inside the arena
/// bounds; `in_bounds` states that.
#[derive(Clone, Copy, PartialEq, Eq, Structural, Debug)]
pub struct Position {
    pub x: u32,
    pub y: u32,
}

/// A heading of the snake, or a requested movement direction.
#[derive(Clone, Copy, PartialEq, Eq, Structural, Debug)]
pub enum Direction {
    Up,
    Down,
    Left,
    Right,
}

/// Whether a cell lies on the arena.
pub open spec fn in_bounds(p: Position) -> bool {
    p.x < ARENA_WIDTH && p.y < ARENA_HEIGHT
}

/// The direction opposite to `d`.
pub open spec fn opposite_spec(d: Direction) -> Direction {
    match d {
        Direction::Left => Direction::Right,
        Direction::Right => Direction::Left,
        Direction::Up => Direction::Down,
        Direction::Down => Direction::Up,
    }
}

impl Direction {
    /// The direction opposite to `self`.
    pub fn opposite(self) -> (r: Direction)
        ensures
            r == opposite_spec(self),
    {
        match self {
            Direction::Left => Direction::Right,
            Direction::Right => Direction::Left,
            Direction::Up => Direction::Down,
            Direction::Down => Direction::Up,
        }
    }
}

/// Taking the opposite twice yields the original direction.
pub proof fn lemma_opposite_involutive(d: Direction)
    ensures
        opposite_spec(opposite_spec(d)) == d,
{
}

/// A coordinate one step further along an axis of length `dim`, wrapping
/// from the last cell back to the first.
pub open spec fn wrap_inc(v: u32, dim: u32) -> u32 {
    if v + 1 == dim {
        0
    } else {
        (v + 1) as u32
    }
}

/// A coordinate one step back along an axis of length `dim`, wrapping
/// from the first cell to the last.
pub open spec fn wrap_dec(v: u32, dim: u32) -> u32 {
    if v == 0 {
        (dim - 1) as u32
    } else {
        (v - 1) as u32
    }
}

/// Stepping wraps exactly as addition modulo the axis length: moving one
/// forward is `(v + 1) % dim` and moving one back is `(v + dim - 1) % dim`.
pub proof fn lemma_wrap_is_modular(v: u32, dim: u32)
    requires
        0 < dim,
        v < dim,
    ensures
        wrap_inc(v, dim) == (v + 1) % (dim as int),
        wrap_dec(v, dim) == (v + dim - 1) % (dim as int),
{
    if v + 1 == dim {
        vstd::arithmetic::div_mod::lemma_mod_self_0(dim as int);
    } else {
        vstd::arithmetic::div_mod::lemma_small_mod((v + 1) as nat, dim as nat);
    }
    if v == 0 {
        vstd::arithmetic::div_mod::lemma_small_mod((dim - 1) as nat, dim as nat);
    } else {
        vstd::arithmetic::div_mod::lemma_mod_add_multiples_vanish(v - 1, dim as int);
        vstd::arithmetic::div_mod::lemma_small_mod((v - 1) as nat, dim as nat);
    }
}

/// The cell one step from `p` in direction `d`, wrapping at the arena edges.
pub open spec fn step_spec(p: Position, d: Direction) -> Position {
    match d {
        Direction::Left => (Position { x: wrap_dec(p.x, ARENA_WIDTH), y: p.y }),
        Direction::Right => (Position { x: wrap_inc(p.x, ARENA_WIDTH), y: p.y }),
        Direction::Down => (Position { x: p.x, y: wrap_dec(p.y, ARENA_HEIGHT) }),
        Direction::Up => (Position { x: p.x, y: wrap_inc(p.y, ARENA_HEIGHT) }),
    }
}

/// Advance a cell one step in direction `d`, wrapping around the arena.
/// The result is always on the arena again.
pub fn step(p: Position, d: Direction) -> (r: Position)
    requires
        in_bounds(p),
    ensures
        r == step_spec(p, d),
        in_bounds(r),
{
    match d {
        Direction::Left => {
            if p.x == 0 {
                Position { x: ARENA_WIDTH - 1, y: p.y }
            } else {
                Position { x: p.x - 1, y: p.y }
            }
        },
        Direction::Right => {
            if p.x + 1 == ARENA_WIDTH {
                Position { x: 0, y: p.y }
            } else {
                Position { x: p.x + 1, y: p.y }
            }
        },
        Direction::Down => {
            if p.y == 0 {
                Position { x: p.x, y: ARENA_HEIGHT - 1 }
            } else {
                Position { x: p.x, y: p.y - 1 }
            }
        },
        Direction::Up => {
            if p.y + 1 == ARENA_HEIGHT {
                Position { x: p.x, y: 0 }
            } else {
                Position { x: p.x, y: p.y + 1 }
            }
        },
    }
}

/// A raw coordinate difference, clamped so that a jump across the wrap seam
/// reads as one step in the opposite sign: a magnitude above one flips.
pub open spec fn delta_clamp(raw: int) -> int {
    if raw > 1 {
        -1
    } else if raw < -1 {
        1
    } else {
        raw
    }
}

/// Horizontal component of the wrap-aware delta from `from` to `to`.
pub open spec fn wrapped_dx(from: Position, to: Position) -> int {
    delta_clamp(to.x - from.x)
}

/// Vertical component of the wrap-aware delta from `from` to `to`.
pub open spec fn wrapped_dy(from: Position, to: Position) -> int {
    delta_clamp(to.y - from.y)
}

/// The wrap-aware delta between two cells: the raw difference per axis,
/// with any magnitude above one clamped to a single step of the opposite
/// sign, modeling adjacency through the wrap seam. Used only for sprite
/// inference, never for movement.
pub fn wrapped_delta(from: Position, to: Position) -> (r: (i32, i32))
    requires
        in_bounds(from),
        in_bounds(to),
    ensures
        r.0 == wrapped_dx(from, to),
        r.1 == wrapped_dy(from, to),
{
    let mut dx: i32 = to.x as i32 - from.x as i32;
    let mut dy: i32 = to.y as i32 - from.y as i32;

    if dx > 1 {
        dx = -1;
    } else if dx < -1 {
        dx = 1;
    }

    if dy > 1 {
        dy = -1;
    } else if dy < -1 {
        dy = 1;
    }

    (dx, dy)
}

} // verus!
