//! The whole simulation state and the one function that advances it by a
//! frame, in the fixed order: input-latch update, movement (when a tick
//! is due), eating, growth, food spawning, then the state-machine
//! transitions. Everything the frame does is stated in its contract;
//! only the food draw is random, and what holds of every draw is stated.

use vstd::prelude::*;

use crate::grid::ARENA_HEIGHT;
use crate::grid::ARENA_WIDTH;
use crate::grid::Direction;
use crate::grid::Position;
use crate::grid::in_bounds;
use crate::grid::opposite_spec;
use crate::grid::step_spec;
use crate::input::latch_direction;
use crate::input::latch_spec;
use crate::input::lemma_latch_never_reverses;
use crate::rng::random_below;
use crate::snake::MoveOutcome;
use crate::snake::Snake;
use crate::snake::lemma_snake_fits_board;
use crate::snake::shifted_body;
use crate::state::AppState;
use crate::state::GameState;
use crate::state::PausedState;
use crate::state::can_tick_spec;
use crate::state::can_tick_world;
use crate::state::toggle_paused;
use crate::state::toggled_spec;

verus! {

/// The discrete events one frame hands to the simulation. Raw devices
/// are polled outside; the core only sees their meaning.
#[derive(Clone, Copy, PartialEq, Eq, Structural, Debug)]
pub struct FrameInput {
    /// The direction requested this frame, if any.
    pub requested: Option<Direction>,
    /// Whether a fixed movement tick is due this frame (at most one).
    pub tick: bool,
    /// The pause toggle was pressed.
    pub pause: bool,
    /// The quit-to-menu key was pressed.
    pub quit: bool,
    /// The restart key was pressed on the game-over screen.
    pub restart: bool,
    /// Play was chosen in the menu.
    pub play: bool,
    /// Asset loading finished.
    pub loaded: bool,
}

/// What one frame did, for the collaborators outside the core: a growth
/// (`ate`) asks for the growth sound; a collision ends the life.
#[derive(Clone, Copy, PartialEq, Eq, Structural, Debug)]
pub struct FrameOutput {
    /// The snake advanced one cell.
    pub moved: bool,
    /// The move hit the snake's own pre-move body; the body was left
    /// unchanged and the life ended.
    pub collided: bool,
    /// The head reached the food: the snake grew and scored.
    pub ate: bool,
    /// A requested food placement was fulfilled this frame.
    pub spawned: bool,
}

/// The complete simulation state threaded through every frame.
pub struct GameWorld {
    pub app: AppState,
    pub game: GameState,
    pub paused: PausedState,
    pub snake: Snake,
    /// The most recently accepted, non-reversing direction.
    pub latch: Direction,
    /// The live food cell, if one exists.
    pub food: Option<Position>,
    pub score: u32,
    /// The pre-shift tail cell of the latest move, where growth appends.
    pub last_tail: Option<Position>,
    /// Whether a food placement request is pending.
    pub food_requested: bool,
}

impl GameWorld {
    /// The world invariant: a well-formed snake, the score equal to the
    /// segments gained since the initial two, food (when present) on the
    /// arena and never on the snake, and — while the life is being
    /// played — a latch that never points against the heading.
    pub open spec fn wf(self) -> bool {
        &&& self.snake.wf()
        &&& self.score as int + 2 == self.snake.body@.len()
        &&& (self.food matches Option::Some(f) ==> in_bounds(f)
            && !self.snake.body@.contains(f))
        &&& (self.game is Playing ==> self.latch != opposite_spec(self.snake.heading))
    }

    /// Whether the world-affecting systems run this frame.
    pub open spec fn gate(self) -> bool {
        can_tick_spec(self.app, self.game, self.paused)
    }
}

/// The latch as it stands after this frame's input sample.
pub open spec fn latch_after_input(w: GameWorld, input: FrameInput) -> Direction {
    if w.gate() {
        latch_spec(w.snake.heading, w.latch, input.requested)
    } else {
        w.latch
    }
}

/// The cell the head steps towards this frame.
pub open spec fn move_target(w: GameWorld, input: FrameInput) -> Position {
    step_spec(w.snake.body@[0], latch_after_input(w, input))
}

/// Whether that cell is occupied in the pre-move snapshot.
pub open spec fn move_hits(w: GameWorld, input: FrameInput) -> bool {
    w.snake.body@.contains(move_target(w, input))
}

/// The frame commits a move: the world runs, a tick is due, no hit.
pub open spec fn frame_moves(w: GameWorld, input: FrameInput) -> bool {
    w.gate() && input.tick && !move_hits(w, input)
}

/// The frame ends the life: the world runs, a tick is due, and the
/// target cell is occupied.
pub open spec fn frame_collides(w: GameWorld, input: FrameInput) -> bool {
    w.gate() && input.tick && move_hits(w, input)
}

/// The frame eats: the move carries the head onto the food.
pub open spec fn frame_eats(w: GameWorld, input: FrameInput) -> bool {
    frame_moves(w, input) && w.food == Option::Some(move_target(w, input))
}

/// The body after movement, eating and growth: shifted on a move, with
/// the pre-shift tail appended on a growth, untouched otherwise.
pub open spec fn body_after_world(w: GameWorld, input: FrameInput) -> Seq<Position> {
    if frame_moves(w, input) {
        let shifted = shifted_body(w.snake.body@, move_target(w, input));
        if frame_eats(w, input) {
            shifted.push(w.snake.body@.last())
        } else {
            shifted
        }
    } else {
        w.snake.body@
    }
}

/// A food placement is attempted when the world runs, a request is
/// pending (from before, or from this frame's growth) and no food is
/// live after the eating step.
pub open spec fn spawn_attempted(w: GameWorld, input: FrameInput) -> bool {
    w.gate() && if frame_eats(w, input) {
        true
    } else {
        w.food_requested && w.food is None
    }
}

/// Loading finished this frame.
pub open spec fn load_fires(w: GameWorld, input: FrameInput) -> bool {
    input.loaded && w.app is Loading
}

/// Play was chosen in the menu this frame.
pub open spec fn play_fires(w: GameWorld, input: FrameInput) -> bool {
    input.play && w.app is Menu
}

/// The pause toggle applies (any time after loading).
pub open spec fn pause_fires(w: GameWorld, input: FrameInput) -> bool {
    input.pause && !(w.app is Loading)
}

/// Quit-to-menu applies: pressed in the game, and not shadowed by the
/// pause key, which is examined first.
pub open spec fn quit_fires(w: GameWorld, input: FrameInput) -> bool {
    input.quit && !input.pause && w.app is Game
}

/// A restart applies on the game-over screen.
pub open spec fn restart_fires(w: GameWorld, input: FrameInput) -> bool {
    input.restart && w.game is GameOver
}

/// Whether the frame ends by (re)creating the play state: entering the
/// game from the menu, or restarting after a game over.
pub open spec fn world_resets(w: GameWorld, input: FrameInput) -> bool {
    play_fires(w, input) || restart_fires(w, input)
}

/// The application state after the frame's transitions.
pub open spec fn app_after(w: GameWorld, input: FrameInput) -> AppState {
    if load_fires(w, input) {
        AppState::Menu
    } else if play_fires(w, input) {
        AppState::Game
    } else if quit_fires(w, input) {
        AppState::Menu
    } else {
        w.app
    }
}

/// The life state after the frame's transitions.
pub open spec fn game_after(w: GameWorld, input: FrameInput) -> GameState {
    if world_resets(w, input) {
        GameState::Playing
    } else if frame_collides(w, input) {
        GameState::GameOver
    } else {
        w.game
    }
}

impl GameWorld {
    /// A fresh world: loading, with the initial snake and no food.
    pub fn new() -> (w: GameWorld)
        ensures
            w.wf(),
            w.app is Loading,
            w.game is Playing,
            w.paused is Running,
            w.snake.body@ == Snake::initial_body(),
            w.snake.heading == Direction::Up,
            w.latch == Direction::Up,
            w.score == 0,
            w.food is None,
            w.last_tail is None,
            !w.food_requested,
    {
        GameWorld {
            app: AppState::Loading,
            game: GameState::Playing,
            paused: PausedState::Running,
            snake: Snake::initial(),
            latch: Direction::Up,
            food: Option::None,
            score: 0,
            last_tail: Option::None,
            food_requested: false,
        }
    }

    /// Reset the play state: score to zero, the snake to its initial
    /// two-segment layout heading up, no live food and exactly one
    /// pending food placement request. Runs on entering the game, fresh
    /// or after a restart.
    fn enter_game(&mut self)
        ensures
            final(self).app == old(self).app,
            final(self).game == old(self).game,
            final(self).paused == old(self).paused,
            final(self).snake.body@ == Snake::initial_body(),
            final(self).snake.wf(),
            final(self).snake.heading == Direction::Up,
            final(self).latch == Direction::Up,
            final(self).score == 0,
            final(self).food is None,
            final(self).last_tail is None,
            final(self).food_requested,
    {
        self.score = 0;
        self.snake = Snake::initial();
        self.latch = Direction::Up;
        self.food = Option::None;
        self.last_tail = Option::None;
        self.food_requested = true;
    }

    /// Pick an unoccupied cell for food. Uniform draws are rejected
    /// while they land on the snake; after enough rejections a sweep of
    /// the arena settles it, so the search always terminates. No cell is
    /// returned exactly when the snake covers the whole arena — the
    /// degenerate board-full case, which the caller treats as a stalled
    /// win rather than looping.
    pub fn spawn_food(&self) -> (r: Option<Position>)
        requires
            self.snake.wf(),
        ensures
            r matches Option::Some(c) ==> in_bounds(c) && !self.snake.body@.contains(c),
            (r is None) <==> (forall|c: Position| in_bounds(c)
                ==> #[trigger] self.snake.body@.contains(c)),
    {
        let mut tries: u32 = 0;
        while tries < 128
            decreases 128 - tries,
        {
            let c = Position {
                x: random_below(ARENA_WIDTH),
                y: random_below(ARENA_HEIGHT),
            };
            if !self.snake.occupies(c) {
                return Option::Some(c);
            }
            tries = tries + 1;
        }
        let mut x: u32 = 0;
        while x < ARENA_WIDTH
            invariant
                x <= ARENA_WIDTH,
                forall|c: Position| in_bounds(c) && c.x < x
                    ==> #[trigger] self.snake.body@.contains(c),
            decreases ARENA_WIDTH - x,
        {
            let mut y: u32 = 0;
            while y < ARENA_HEIGHT
                invariant
                    x < ARENA_WIDTH,
                    y <= ARENA_HEIGHT,
                    forall|c: Position| in_bounds(c) && c.x < x
                        ==> #[trigger] self.snake.body@.contains(c),
                    forall|c: Position| in_bounds(c) && c.x == x && c.y < y
                        ==> #[trigger] self.snake.body@.contains(c),
                decreases ARENA_HEIGHT - y,
            {
                let c = Position { x, y };
                if !self.snake.occupies(c) {
                    return Option::Some(c);
                }
                y = y + 1;
            }
            x = x + 1;
        }
        Option::None
    }

    /// Advance the simulation by one frame, in the fixed order: sample
    /// the input latch, move if a tick is due (judging self-collision
    /// against the pre-move snapshot and leaving the body untouched on a
    /// hit), eat when the head lies on the food, grow at the pre-shift
    /// tail and score, fulfill a pending food request, then apply the
    /// state-machine transitions.
    pub fn frame(&mut self, input: FrameInput) -> (out: FrameOutput)
        requires
            old(self).wf(),
        ensures
            final(self).wf(),
            out.moved == frame_moves(*old(self), input),
            out.collided == frame_collides(*old(self), input),
            out.ate == frame_eats(*old(self), input),
            out.spawned ==> spawn_attempted(*old(self), input),
            // one tick never reverses the snake on the spot
            out.moved || out.collided ==> final(self).snake.heading != opposite_spec(
                old(self).snake.heading,
            ),
            // the play state, unless this frame ends in a reset
            !world_resets(*old(self), input) ==> {
                &&& final(self).snake.body@ == body_after_world(*old(self), input)
                &&& final(self).snake.body@.len() == old(self).snake.body@.len()
                    + if out.ate { 1 as int } else { 0 as int }
                &&& final(self).snake.heading == (if old(self).gate() && input.tick {
                    latch_after_input(*old(self), input)
                } else {
                    old(self).snake.heading
                })
                &&& final(self).latch == (if out.collided {
                    Direction::Up
                } else {
                    latch_after_input(*old(self), input)
                })
                &&& final(self).score == old(self).score + if out.ate {
                    1 as int
                } else {
                    0 as int
                }
                &&& final(self).last_tail == (if out.moved {
                    Option::Some(old(self).snake.body@.last())
                } else {
                    old(self).last_tail
                })
                &&& final(self).food_requested == (if old(self).gate() {
                    false
                } else {
                    old(self).food_requested
                })
                &&& (out.spawned ==> final(self).food is Some)
                &&& (spawn_attempted(*old(self), input) && !out.spawned ==> {
                    &&& final(self).food is None
                    &&& forall|c: Position| in_bounds(c)
                        ==> #[trigger] final(self).snake.body@.contains(c)
                })
                &&& (!spawn_attempted(*old(self), input) ==> final(self).food == (
                    if out.ate {
                        Option::<Position>::None
                    } else {
                        old(self).food
                    }
                ))
            },
            // entering the game, fresh or restarted, resets the play state
            world_resets(*old(self), input) ==> {
                &&& final(self).snake.body@ == Snake::initial_body()
                &&& final(self).snake.heading == Direction::Up
                &&& final(self).latch == Direction::Up
                &&& final(self).score == 0
                &&& final(self).food is None
                &&& final(self).last_tail is None
                &&& final(self).food_requested
            },
            // the three state axes
            final(self).app == app_after(*old(self), input),
            final(self).paused == (if pause_fires(*old(self), input) {
                toggled_spec(old(self).paused)
            } else {
                old(self).paused
            }),
            final(self).game == game_after(*old(self), input),
    {
        let mut out = FrameOutput { moved: false, collided: false, ate: false, spawned: false };
        let ticking = can_tick_world(self.app, self.game, self.paused);
        // the transitions at the frame's end test the states the frame
        // started with, exactly as the systems ran under them
        let app0 = self.app;
        let game0 = self.game;
        let ghost pre = *self;
        if ticking {
            // input latch: one sample per frame, reversal refused
            self.latch = latch_direction(self.snake.heading, self.latch, input.requested);
            proof {
                lemma_latch_never_reverses(self.snake.heading, pre.latch, input.requested);
            }
            // movement: at most one tick commit per frame
            let mut grow_cell: Option<Position> = Option::None;
            if input.tick {
                match self.snake.advance(self.latch) {
                    MoveOutcome::Moved { prev_tail } => {
                        self.last_tail = Option::Some(prev_tail);
                        grow_cell = Option::Some(prev_tail);
                        out.moved = true;
                    },
                    MoveOutcome::Collided => {
                        out.collided = true;
                    },
                }
            }
            // eating: checked every frame, not only on movement ticks —
            // though between frames the food never lies on the body, so
            // only a fresh move can feed the snake
            if !out.collided {
                let head = self.snake.head();
                let eats = match self.food {
                    Option::Some(f) => f == head,
                    Option::None => false,
                };
                if eats {
                    proof {
                        // without a fresh move the head is where it was, and
                        // the invariant keeps the food off the body
                        if !out.moved {
                            assert(self.snake.body@[0] == pre.snake.body@[0]);
                            assert(pre.snake.body@.contains(pre.snake.body@[0]));
                            assert(false);
                        }
                    }
                    self.food = Option::None;
                    out.ate = true;
                    // growth: a new segment at the pre-shift tail cell
                    match grow_cell {
                        Option::Some(cell) => {
                            proof {
                                lemma_snake_fits_board(self.snake.body@);
                            }
                            self.snake.grow(cell);
                            self.score = self.score + 1;
                            self.food_requested = true;
                        },
                        Option::None => {
                            // eating always follows a move, so a growth
                            // cell always exists
                            proof {
                                assert(false);
                            }
                        },
                    }
                }
            }
            // food spawning: fulfill a pending request if no food lives
            if self.food_requested {
                self.food_requested = false;
                let vacant = match self.food {
                    Option::Some(_) => false,
                    Option::None => true,
                };
                if vacant {
                    match self.spawn_food() {
                        Option::Some(c) => {
                            self.food = Option::Some(c);
                            out.spawned = true;
                        },
                        Option::None => {},
                    }
                }
            }
        }
        // state-machine transitions, applied at the frame's end
        if out.collided {
            self.game = GameState::GameOver;
            self.latch = Direction::Up;
        }
        if input.loaded && app0 == AppState::Loading {
            self.app = AppState::Menu;
        }
        if input.play && app0 == AppState::Menu {
            self.app = AppState::Game;
            self.game = GameState::Playing;
            self.enter_game();
        }
        if input.pause && app0 != AppState::Loading {
            self.paused = toggle_paused(self.paused);
        }
        if input.quit && !input.pause && app0 == AppState::Game {
            self.app = AppState::Menu;
        }
        if input.restart && game0 == GameState::GameOver {
            self.game = GameState::Playing;
            self.enter_game();
        }
        out
    }
}

} // verus!
