//! The orientation resolver: for every body segment, derive from its
//! neighbors' wrap-aware relative positions which sprite of the texture
//! atlas shows it — head by heading (with a mouth that opens as food
//! comes near), tail by the direction of its predecessor, inner segments
//! straight or cornered by the sign table of their two deltas. Sprite
//! indices are opaque integers into an externally loaded atlas; they are
//! derived data, recomputed every frame, never a source of truth.

use vstd::prelude::*;

use crate::grid::Direction;
use crate::grid::Position;
use crate::grid::in_bounds;
use crate::grid::wrapped_delta;
use crate::grid::wrapped_dx;
use crate::grid::wrapped_dy;
use crate::snake::Snake;

verus! {

pub const SNAKE_HEAD_UP: usize = 48;
pub const SNAKE_HEAD_DOWN: usize = 80;
pub const SNAKE_HEAD_LEFT: usize = 64;
pub const SNAKE_HEAD_RIGHT: usize = 96;

pub const SNAKE_BODY_VERTICAL: usize = 32;
pub const SNAKE_BODY_HORIZONTAL: usize = 33;

pub const SNAKE_CORNER_BOTTOM_RIGHT: usize = 34;
pub const SNAKE_CORNER_BOTTOM_LEFT: usize = 35;
pub const SNAKE_CORNER_TOP_RIGHT: usize = 36;
pub const SNAKE_CORNER_TOP_LEFT: usize = 37;

pub const SNAKE_TAIL_UP: usize = 38;
pub const SNAKE_TAIL_LEFT: usize = 39;
pub const SNAKE_TAIL_DOWN: usize = 40;
pub const SNAKE_TAIL_RIGHT: usize = 41;

pub const FOOD_RED: usize = 336;
pub const FOOD_GREEN: usize = 337;
pub const FOOD_YELLOW: usize = 338;

/// Absolute difference of two coordinates.
pub open spec fn abs_delta(a: u32, b: u32) -> int {
    if a >= b {
        a - b
    } else {
        b - a
    }
}

/// Raw Manhattan distance between two cells, without wrap.
pub open spec fn manhattan(a: Position, b: Position) -> int {
    abs_delta(a.x, b.x) + abs_delta(a.y, b.y)
}

/// How far the head's mouth opens: the closer the food (raw Manhattan
/// distance at most four), the larger the sprite offset, up to five.
pub open spec fn open_mouth_spec(food: Position, head: Position) -> int {
    if manhattan(food, head) <= 4 {
        5 - manhattan(food, head)
    } else {
        0
    }
}

/// The mouth-opening sprite offset for the head when food sits at `food`.
pub fn open_mouth(food: Position, head: Position) -> (r: usize)
    requires
        in_bounds(food),
        in_bounds(head),
    ensures
        r == open_mouth_spec(food, head),
{
    let dx = if food.x >= head.x {
        food.x - head.x
    } else {
        head.x - food.x
    };
    let dy = if food.y >= head.y {
        food.y - head.y
    } else {
        head.y - food.y
    };
    let distance = dx + dy;
    if distance <= 4 {
        5 - distance as usize
    } else {
        0
    }
}

/// The head sprite for a heading before any mouth offset.
pub open spec fn head_base_spec(heading: Direction) -> int {
    match heading {
        Direction::Up => SNAKE_HEAD_UP as int,
        Direction::Down => SNAKE_HEAD_DOWN as int,
        Direction::Left => SNAKE_HEAD_LEFT as int,
        Direction::Right => SNAKE_HEAD_RIGHT as int,
    }
}

/// The head sprite: the base for the heading, offset by the mouth
/// opening when food is present.
pub open spec fn head_sprite_spec(
    heading: Direction,
    head: Position,
    food: Option<Position>,
) -> int {
    head_base_spec(heading) + match food {
        Option::Some(f) => open_mouth_spec(f, head),
        Option::None => 0,
    }
}

/// The sprite of the head segment.
pub fn head_sprite(heading: Direction, head: Position, food: Option<Position>) -> (r: usize)
    requires
        in_bounds(head),
        food matches Option::Some(f) ==> in_bounds(f),
    ensures
        r == head_sprite_spec(heading, head, food),
{
    let base = match heading {
        Direction::Up => SNAKE_HEAD_UP,
        Direction::Down => SNAKE_HEAD_DOWN,
        Direction::Left => SNAKE_HEAD_LEFT,
        Direction::Right => SNAKE_HEAD_RIGHT,
    };
    match food {
        Option::Some(f) => base + open_mouth(f, head),
        Option::None => base,
    }
}

/// The tail sprite, read off the wrap-aware delta from the tail cell to
/// its predecessor; a horizontal component wins over a vertical one.
pub open spec fn tail_sprite_spec(tail: Position, prev: Position) -> int {
    let dx = wrapped_dx(tail, prev);
    let dy = wrapped_dy(tail, prev);
    if dx > 0 {
        SNAKE_TAIL_RIGHT as int
    } else if dx < 0 {
        SNAKE_TAIL_LEFT as int
    } else if dy > 0 {
        SNAKE_TAIL_UP as int
    } else {
        SNAKE_TAIL_DOWN as int
    }
}

/// The sprite of the tail segment, given its predecessor.
pub fn tail_sprite(tail: Position, prev: Position) -> (r: usize)
    requires
        in_bounds(tail),
        in_bounds(prev),
    ensures
        r == tail_sprite_spec(tail, prev),
{
    let (dx, dy) = wrapped_delta(tail, prev);
    if dx > 0 {
        SNAKE_TAIL_RIGHT
    } else if dx < 0 {
        SNAKE_TAIL_LEFT
    } else if dy > 0 {
        SNAKE_TAIL_UP
    } else {
        SNAKE_TAIL_DOWN
    }
}

/// The sprite of an inner segment, from the wrap-aware deltas towards its
/// predecessor and its successor: both deltas level means a horizontal
/// straight, both upright a vertical straight, and any other combination
/// one corner, picked by the sign table of the four components.
pub open spec fn body_sprite_spec(current: Position, prev: Position, next: Position) -> int {
    let pdx = wrapped_dx(current, prev);
    let pdy = wrapped_dy(current, prev);
    let ndx = wrapped_dx(current, next);
    let ndy = wrapped_dy(current, next);
    if pdy == 0 && ndy == 0 {
        SNAKE_BODY_HORIZONTAL as int
    } else if pdx == 0 && ndx == 0 {
        SNAKE_BODY_VERTICAL as int
    } else if (pdx < 0 && ndy < 0) || (pdy < 0 && ndx < 0) {
        SNAKE_CORNER_TOP_RIGHT as int
    } else if (pdx > 0 && ndy < 0) || (pdy < 0 && ndx > 0) {
        SNAKE_CORNER_TOP_LEFT as int
    } else if (pdx < 0 && ndy > 0) || (pdy > 0 && ndx < 0) {
        SNAKE_CORNER_BOTTOM_RIGHT as int
    } else {
        SNAKE_CORNER_BOTTOM_LEFT as int
    }
}

/// The sprite of an inner body segment, given both neighbors.
pub fn body_sprite(current: Position, prev: Position, next: Position) -> (r: usize)
    requires
        in_bounds(current),
        in_bounds(prev),
        in_bounds(next),
    ensures
        r == body_sprite_spec(current, prev, next),
{
    let (pdx, pdy) = wrapped_delta(current, prev);
    let (ndx, ndy) = wrapped_delta(current, next);
    if pdy == 0 && ndy == 0 {
        SNAKE_BODY_HORIZONTAL
    } else if pdx == 0 && ndx == 0 {
        SNAKE_BODY_VERTICAL
    } else if (pdx < 0 && ndy < 0) || (pdy < 0 && ndx < 0) {
        SNAKE_CORNER_TOP_RIGHT
    } else if (pdx > 0 && ndy < 0) || (pdy < 0 && ndx > 0) {
        SNAKE_CORNER_TOP_LEFT
    } else if (pdx < 0 && ndy > 0) || (pdy > 0 && ndx < 0) {
        SNAKE_CORNER_BOTTOM_RIGHT
    } else {
        SNAKE_CORNER_BOTTOM_LEFT
    }
}

/// The sprite every segment of the snake shows this frame: the head by
/// heading and mouth offset, the tail (when the snake is longer than one
/// cell) by its predecessor, every inner segment by its two neighbors.
pub fn segment_sprites(snake: &Snake, food: Option<Position>) -> (r: Vec<usize>)
    requires
        snake.wf(),
        food matches Option::Some(f) ==> in_bounds(f),
    ensures
        r@.len() == snake.body@.len(),
        r@[0] == head_sprite_spec(snake.heading, snake.body@[0], food),
        snake.body@.len() > 1 ==> r@[snake.body@.len() - 1] == tail_sprite_spec(
            snake.body@[snake.body@.len() - 1],
            snake.body@[snake.body@.len() - 2],
        ),
        forall|i: int| 1 <= i < snake.body@.len() - 1 ==> r@[i] == body_sprite_spec(
            #[trigger] snake.body@[i],
            snake.body@[i - 1],
            snake.body@[i + 1],
        ),
{
    let n = snake.body.len();
    let mut r: Vec<usize> = Vec::new();
    r.push(head_sprite(snake.heading, snake.body[0], food));
    if n == 1 {
        return r;
    }
    let mut i: usize = 1;
    while i + 1 < n
        invariant
            n == snake.body@.len(),
            snake.wf(),
            food matches Option::Some(f) ==> in_bounds(f),
            1 <= i <= n - 1,
            r@.len() == i,
            r@[0] == head_sprite_spec(snake.heading, snake.body@[0], food),
            forall|j: int| 1 <= j < i ==> r@[j] == body_sprite_spec(
                #[trigger] snake.body@[j],
                snake.body@[j - 1],
                snake.body@[j + 1],
            ),
        decreases n - i,
    {
        r.push(body_sprite(snake.body[i], snake.body[i - 1], snake.body[i + 1]));
        i = i + 1;
    }
    r.push(tail_sprite(snake.body[n - 1], snake.body[n - 2]));
    r
}

/// The food sprite for one random draw: one of three colors.
pub open spec fn food_sprite_spec(roll: u32) -> int {
    if roll == 0 {
        FOOD_RED as int
    } else if roll == 1 {
        FOOD_GREEN as int
    } else {
        FOOD_YELLOW as int
    }
}

/// The atlas sprite of a food entity, picked by a random draw in `0..3`.
pub fn food_sprite(roll: u32) -> (r: usize)
    ensures
        r == food_sprite_spec(roll),
{
    if roll == 0 {
        FOOD_RED
    } else if roll == 1 {
        FOOD_GREEN
    } else {
        FOOD_YELLOW
    }
}

} // verus!
