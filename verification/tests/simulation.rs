//! The movement engine and the per-frame simulation: collisions against
//! the pre-move snapshot, growth at the pre-shift tail, food placement.

use snake_core::grid::{Direction, Position, ARENA_HEIGHT, ARENA_WIDTH};
use snake_core::snake::{MoveOutcome, Snake};
use snake_core::state::{AppState, GameState, PausedState};
use snake_core::world::{FrameInput, GameWorld};

fn pos(x: u32, y: u32) -> Position {
    Position { x, y }
}

fn tick_input() -> FrameInput {
    FrameInput {
        requested: None,
        tick: true,
        pause: false,
        quit: false,
        restart: false,
        play: false,
        loaded: false,
    }
}

fn idle_input() -> FrameInput {
    FrameInput {
        tick: false,
        ..tick_input()
    }
}

/// A world in the middle of play, built around the given snake.
fn playing_world(snake: Snake, food: Option<Position>, score: u32) -> GameWorld {
    let latch = snake.heading;
    GameWorld {
        app: AppState::Game,
        game: GameState::Playing,
        paused: PausedState::Running,
        snake,
        latch,
        food,
        score,
        last_tail: None,
        food_requested: false,
    }
}

#[test]
fn advance_shifts_each_segment_to_its_predecessor() {
    let mut snake = Snake {
        body: vec![pos(4, 5), pos(4, 4), pos(5, 4)],
        heading: Direction::Up,
    };
    let out = snake.advance(Direction::Up);
    assert_eq!(out, MoveOutcome::Moved { prev_tail: pos(5, 4) });
    assert_eq!(snake.body, vec![pos(4, 6), pos(4, 5), pos(4, 4)]);
    assert_eq!(snake.heading, Direction::Up);
}

#[test]
fn advance_wraps_around_the_edge() {
    let mut snake = Snake {
        body: vec![pos(3, ARENA_HEIGHT - 1), pos(3, ARENA_HEIGHT - 2)],
        heading: Direction::Up,
    };
    let out = snake.advance(Direction::Up);
    assert!(matches!(out, MoveOutcome::Moved { .. }));
    assert_eq!(snake.body, vec![pos(3, 0), pos(3, ARENA_HEIGHT - 1)]);
}

#[test]
fn advance_into_own_tail_cell_collides() {
    // the tail cell still counts: collision is judged against the
    // pre-move snapshot, tail before its shift included
    let mut snake = Snake {
        body: vec![pos(5, 5), pos(4, 5), pos(4, 4), pos(5, 4)],
        heading: Direction::Up,
    };
    let before = snake.body.clone();
    let out = snake.advance(Direction::Down);
    assert_eq!(out, MoveOutcome::Collided);
    assert_eq!(snake.body, before);
}

#[test]
fn self_collision_ends_life_and_leaves_body_unmodified() {
    let snake = Snake {
        body: vec![pos(5, 5), pos(5, 4), pos(5, 3)],
        heading: Direction::Down,
    };
    let mut w = playing_world(snake, None, 1);
    w.latch = Direction::Down;
    let out = w.frame(tick_input());
    assert!(out.collided);
    assert!(!out.moved);
    assert_eq!(w.game, GameState::GameOver);
    assert_eq!(w.snake.body, vec![pos(5, 5), pos(5, 4), pos(5, 3)]);
    assert_eq!(w.score, 1);
}

#[test]
fn length_is_preserved_without_growth() {
    let snake = Snake {
        body: vec![pos(2, 2), pos(2, 1)],
        heading: Direction::Up,
    };
    let mut w = playing_world(snake, Some(pos(7, 9)), 0);
    for _ in 0..10 {
        let before = w.snake.body.len();
        let out = w.frame(tick_input());
        assert!(out.moved && !out.ate);
        assert_eq!(w.snake.body.len(), before);
    }
}

#[test]
fn growth_appends_the_pre_shift_tail() {
    // snapshot [(5,5), (5,4)] with the food one step up: after the move
    // and the growth the new segment sits at (5,4), the pre-shift tail
    let snake = Snake {
        body: vec![pos(5, 5), pos(5, 4)],
        heading: Direction::Up,
    };
    let mut w = playing_world(snake, Some(pos(5, 6)), 0);
    let out = w.frame(tick_input());
    assert!(out.moved && out.ate);
    assert_eq!(w.snake.body.len(), 3);
    assert_eq!(w.snake.body[2], pos(5, 4));
    assert_eq!(w.snake.body, vec![pos(5, 6), pos(5, 5), pos(5, 4)]);
    assert_eq!(w.score, 1);
}

#[test]
fn eating_respawns_food_off_the_snake() {
    fastrand::seed(7);
    let snake = Snake {
        body: vec![pos(5, 5), pos(5, 4)],
        heading: Direction::Up,
    };
    let mut w = playing_world(snake, Some(pos(5, 6)), 0);
    let out = w.frame(tick_input());
    assert!(out.ate && out.spawned);
    let food = w.food.expect("food is respawned after an eat");
    assert!(food.x < ARENA_WIDTH && food.y < ARENA_HEIGHT);
    assert!(!w.snake.body.contains(&food));
    assert!(!w.food_requested);
}

#[test]
fn no_tick_no_movement() {
    let snake = Snake {
        body: vec![pos(2, 2), pos(2, 1)],
        heading: Direction::Up,
    };
    let mut w = playing_world(snake, None, 0);
    let out = w.frame(idle_input());
    assert!(!out.moved && !out.collided && !out.ate);
    assert_eq!(w.snake.body, vec![pos(2, 2), pos(2, 1)]);
}

#[test]
fn paused_world_does_not_move() {
    let snake = Snake {
        body: vec![pos(2, 2), pos(2, 1)],
        heading: Direction::Up,
    };
    let mut w = playing_world(snake, None, 0);
    w.paused = PausedState::Paused;
    let out = w.frame(tick_input());
    assert!(!out.moved && !out.collided);
    assert_eq!(w.snake.body, vec![pos(2, 2), pos(2, 1)]);
}

#[test]
fn spawn_food_never_lands_on_the_snake() {
    fastrand::seed(42);
    // a snake filling most of one column
    let snake = Snake {
        body: (0..ARENA_HEIGHT - 1).map(|y| pos(3, y)).collect(),
        heading: Direction::Up,
    };
    let w = playing_world(snake, None, ARENA_HEIGHT - 3);
    for _ in 0..200 {
        let c = w.spawn_food().expect("board is far from full");
        assert!(c.x < ARENA_WIDTH && c.y < ARENA_HEIGHT);
        assert!(!w.snake.body.contains(&c));
    }
}

#[test]
fn spawn_food_reaches_every_free_cell() {
    fastrand::seed(3);
    // all but two cells occupied: repeated spawns find both leftovers
    let mut cells: Vec<Position> = Vec::new();
    for x in 0..ARENA_WIDTH {
        for y in 0..ARENA_HEIGHT {
            if (x, y) != (0, 0) && (x, y) != (7, 15) {
                cells.push(pos(x, y));
            }
        }
    }
    let snake = Snake {
        body: cells,
        heading: Direction::Up,
    };
    let w = playing_world(snake, None, (ARENA_WIDTH * ARENA_HEIGHT - 4) as u32);
    let mut seen_origin = false;
    let mut seen_corner = false;
    for _ in 0..300 {
        let c = w.spawn_food().expect("two cells are free");
        assert!(c == pos(0, 0) || c == pos(7, 15));
        seen_origin = seen_origin || c == pos(0, 0);
        seen_corner = seen_corner || c == pos(7, 15);
    }
    assert!(seen_origin && seen_corner);
}

#[test]
fn spawn_food_on_a_full_board_declines() {
    let mut cells: Vec<Position> = Vec::new();
    for x in 0..ARENA_WIDTH {
        for y in 0..ARENA_HEIGHT {
            cells.push(pos(x, y));
        }
    }
    let snake = Snake {
        body: cells,
        heading: Direction::Up,
    };
    let w = playing_world(snake, None, ARENA_WIDTH * ARENA_HEIGHT - 2);
    assert_eq!(w.spawn_food(), None);
}

#[test]
fn single_segment_snake_never_collides_with_itself() {
    // a snake of length one always leaves its only cell: judged against
    // the pre-move snapshot, it never hits itself
    let mut snake = Snake {
        body: vec![pos(0, 0)],
        heading: Direction::Up,
    };
    let out = snake.advance(Direction::Up);
    assert_eq!(out, MoveOutcome::Moved { prev_tail: pos(0, 0) });
    assert_eq!(snake.body, vec![pos(0, 1)]);
}

#[test]
fn two_segment_snake_stepping_on_its_tail_collides() {
    // the tail cell belongs to the pre-move snapshot, so following the
    // own tail is a collision, not a legal move
    let mut snake = Snake {
        body: vec![pos(2, 2), pos(2, 1)],
        heading: Direction::Up,
    };
    let before = snake.body.clone();
    let out = snake.advance(Direction::Down);
    assert_eq!(out, MoveOutcome::Collided);
    assert_eq!(snake.body, before);
}

#[test]
fn filling_the_board_stalls_food_placement() {
    // every cell but one is snake; eating the last food fills the board,
    // and the placement request is declined instead of looping
    let mut cells: Vec<Position> = vec![pos(0, 1)];
    for x in 0..ARENA_WIDTH {
        for y in 0..ARENA_HEIGHT {
            if (x, y) != (0, 0) && (x, y) != (0, 1) {
                cells.push(pos(x, y));
            }
        }
    }
    let snake = Snake {
        body: cells,
        heading: Direction::Down,
    };
    let mut w = playing_world(snake, Some(pos(0, 0)), ARENA_WIDTH * ARENA_HEIGHT - 3);
    w.latch = Direction::Down;
    let out = w.frame(tick_input());
    assert!(out.ate && !out.spawned);
    assert_eq!(w.snake.body.len(), (ARENA_WIDTH * ARENA_HEIGHT) as usize);
    assert_eq!(w.score, ARENA_WIDTH * ARENA_HEIGHT - 2);
    // no food can live any more, and the request is not kept alive
    assert_eq!(w.food, None);
    assert!(!w.food_requested);
}

#[test]
fn request_while_food_lives_is_dropped() {
    let snake = Snake {
        body: vec![pos(2, 2), pos(2, 1)],
        heading: Direction::Up,
    };
    let mut w = playing_world(snake, Some(pos(6, 6)), 0);
    w.food_requested = true;
    let out = w.frame(idle_input());
    assert!(!out.spawned);
    assert_eq!(w.food, Some(pos(6, 6)));
    assert!(!w.food_requested);
}

#[test]
fn snake_crosses_the_seam_in_play() {
    let snake = Snake {
        body: vec![pos(7, 5), pos(6, 5)],
        heading: Direction::Right,
    };
    let mut w = playing_world(snake, None, 0);
    let out = w.frame(tick_input());
    assert!(out.moved);
    assert_eq!(w.snake.body, vec![pos(0, 5), pos(7, 5)]);
}
