//! The orientation resolver: head, tail, straight and corner sprites.

use snake_core::grid::{Direction, Position, ARENA_HEIGHT, ARENA_WIDTH};
use snake_core::snake::Snake;
use snake_core::sprites::{
    body_sprite, food_sprite, head_sprite, open_mouth, segment_sprites, tail_sprite, FOOD_GREEN,
    FOOD_RED, FOOD_YELLOW, SNAKE_BODY_HORIZONTAL, SNAKE_BODY_VERTICAL, SNAKE_CORNER_BOTTOM_LEFT,
    SNAKE_CORNER_BOTTOM_RIGHT, SNAKE_CORNER_TOP_LEFT, SNAKE_CORNER_TOP_RIGHT, SNAKE_HEAD_DOWN,
    SNAKE_HEAD_LEFT, SNAKE_HEAD_RIGHT, SNAKE_HEAD_UP, SNAKE_TAIL_DOWN, SNAKE_TAIL_LEFT,
    SNAKE_TAIL_RIGHT, SNAKE_TAIL_UP,
};

fn pos(x: u32, y: u32) -> Position {
    Position { x, y }
}

#[test]
fn head_base_per_heading() {
    let h = pos(4, 4);
    assert_eq!(head_sprite(Direction::Up, h, None), SNAKE_HEAD_UP);
    assert_eq!(head_sprite(Direction::Down, h, None), SNAKE_HEAD_DOWN);
    assert_eq!(head_sprite(Direction::Left, h, None), SNAKE_HEAD_LEFT);
    assert_eq!(head_sprite(Direction::Right, h, None), SNAKE_HEAD_RIGHT);
}

#[test]
fn mouth_opens_as_food_comes_near() {
    let head = pos(4, 4);
    // distance four: barely open; shrinking distance opens wider
    assert_eq!(open_mouth(pos(4, 8), head), 1);
    assert_eq!(open_mouth(pos(4, 7), head), 2);
    assert_eq!(open_mouth(pos(6, 5), head), 2);
    assert_eq!(open_mouth(pos(4, 5), head), 4);
    assert_eq!(open_mouth(pos(4, 4), head), 5);
    // too far: closed
    assert_eq!(open_mouth(pos(4, 9), head), 0);
    assert_eq!(open_mouth(pos(7, 10), head), 0);
}

#[test]
fn head_sprite_offsets_by_mouth() {
    let head = pos(4, 4);
    assert_eq!(
        head_sprite(Direction::Up, head, Some(pos(4, 6))),
        SNAKE_HEAD_UP + 3
    );
    assert_eq!(
        head_sprite(Direction::Right, head, Some(pos(0, 0))),
        SNAKE_HEAD_RIGHT
    );
}

#[test]
fn tail_sprites_per_predecessor_side() {
    let tail = pos(4, 4);
    assert_eq!(tail_sprite(tail, pos(5, 4)), SNAKE_TAIL_RIGHT);
    assert_eq!(tail_sprite(tail, pos(3, 4)), SNAKE_TAIL_LEFT);
    assert_eq!(tail_sprite(tail, pos(4, 5)), SNAKE_TAIL_UP);
    assert_eq!(tail_sprite(tail, pos(4, 3)), SNAKE_TAIL_DOWN);
}

#[test]
fn tail_sprite_through_the_seam() {
    // predecessor on the far side of the seam still reads as adjacent
    assert_eq!(
        tail_sprite(pos(0, 4), pos(ARENA_WIDTH - 1, 4)),
        SNAKE_TAIL_LEFT
    );
    assert_eq!(
        tail_sprite(pos(3, ARENA_HEIGHT - 1), pos(3, 0)),
        SNAKE_TAIL_UP
    );
}

#[test]
fn straight_body_sprites() {
    let c = pos(4, 4);
    assert_eq!(body_sprite(c, pos(3, 4), pos(5, 4)), SNAKE_BODY_HORIZONTAL);
    assert_eq!(body_sprite(c, pos(4, 3), pos(4, 5)), SNAKE_BODY_VERTICAL);
}

#[test]
fn corner_sign_table() {
    let c = pos(4, 4);
    // entered from the left neighbor, exits downward
    assert_eq!(body_sprite(c, pos(3, 4), pos(4, 3)), SNAKE_CORNER_TOP_RIGHT);
    // the mirrored traversal picks the same corner
    assert_eq!(body_sprite(c, pos(4, 3), pos(3, 4)), SNAKE_CORNER_TOP_RIGHT);
    assert_eq!(body_sprite(c, pos(5, 4), pos(4, 3)), SNAKE_CORNER_TOP_LEFT);
    assert_eq!(body_sprite(c, pos(4, 3), pos(5, 4)), SNAKE_CORNER_TOP_LEFT);
    assert_eq!(
        body_sprite(c, pos(3, 4), pos(4, 5)),
        SNAKE_CORNER_BOTTOM_RIGHT
    );
    assert_eq!(
        body_sprite(c, pos(4, 5), pos(3, 4)),
        SNAKE_CORNER_BOTTOM_RIGHT
    );
    assert_eq!(
        body_sprite(c, pos(5, 4), pos(4, 5)),
        SNAKE_CORNER_BOTTOM_LEFT
    );
    assert_eq!(
        body_sprite(c, pos(4, 5), pos(5, 4)),
        SNAKE_CORNER_BOTTOM_LEFT
    );
}

#[test]
fn corner_through_the_seam() {
    // the predecessor lies across the vertical seam: the clamped delta
    // reads it as one step to the left
    let c = pos(0, 4);
    assert_eq!(
        body_sprite(c, pos(ARENA_WIDTH - 1, 4), pos(0, 3)),
        SNAKE_CORNER_TOP_RIGHT
    );
}

#[test]
fn segment_sprites_whole_snake() {
    // an L-shaped snake: head (4,5) <- (4,4) <- (5,4) tail, heading up
    let snake = Snake {
        body: vec![pos(4, 5), pos(4, 4), pos(5, 4)],
        heading: Direction::Up,
    };
    let sprites = segment_sprites(&snake, None);
    assert_eq!(sprites.len(), 3);
    assert_eq!(sprites[0], SNAKE_HEAD_UP);
    // middle: entered from above, exits to the right
    assert_eq!(sprites[1], body_sprite(pos(4, 4), pos(4, 5), pos(5, 4)));
    assert_eq!(sprites[2], SNAKE_TAIL_LEFT);
}

#[test]
fn segment_sprites_single_segment() {
    let snake = Snake {
        body: vec![pos(2, 2)],
        heading: Direction::Right,
    };
    let sprites = segment_sprites(&snake, None);
    assert_eq!(sprites, vec![SNAKE_HEAD_RIGHT]);
}

#[test]
fn segment_sprites_two_segments() {
    let snake = Snake {
        body: vec![pos(5, 5), pos(5, 4)],
        heading: Direction::Up,
    };
    let sprites = segment_sprites(&snake, Some(pos(5, 6)));
    assert_eq!(sprites, vec![SNAKE_HEAD_UP + 4, SNAKE_TAIL_UP]);
}

#[test]
fn food_sprite_per_roll() {
    assert_eq!(food_sprite(0), FOOD_RED);
    assert_eq!(food_sprite(1), FOOD_GREEN);
    assert_eq!(food_sprite(2), FOOD_YELLOW);
}
