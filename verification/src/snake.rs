//! The snake's body and the movement engine: an ordered sequence of grid
//! cells (head first) with the current heading, advanced one cell per tick,
//! with self-collision judged against the pre-move snapshot and growth
//! appended at the pre-shift tail cell.

use vstd::prelude::*;
use vstd::set_lib::lemma_int_range;
use vstd::set_lib::lemma_len_subset;
use vstd::set_lib::set_int_range;

use crate::grid::ARENA_HEIGHT;
use crate::grid::ARENA_WIDTH;
use crate::grid::Direction;
use crate::grid::Position;
use crate::grid::in_bounds;
use crate::grid::step;
use crate::grid::step_spec;

verus! {

/// The snake: its cells in order, index 0 the head, the last cell the
/// tail, plus the heading committed at the latest tick.
pub struct Snake {
    pub body: Vec<Position>,
    pub heading: Direction,
}

/// Every cell of the sequence lies on the arena.
pub open spec fn cells_on_arena(cells: Seq<Position>) -> bool {
    forall|i: int| 0 <= i < cells.len() ==> in_bounds(#[trigger] cells[i])
}

/// What a tick does to the cells when no collision occurs: the head takes
/// the target cell and every trailing segment takes the snapshot position
/// of its predecessor.
pub open spec fn shifted_body(cells: Seq<Position>, new_head: Position) -> Seq<Position> {
    seq![new_head] + cells.drop_last()
}

/// The outcome of one movement tick.
#[derive(Clone, Copy, PartialEq, Eq, Structural, Debug)]
pub enum MoveOutcome {
    /// The snake advanced; `prev_tail` is the tail cell of the pre-move
    /// snapshot, the spot where a new segment grows on this tick.
    Moved { prev_tail: Position },
    /// The target cell was occupied in the pre-move snapshot; the body
    /// was left unchanged.
    Collided,
}

impl Snake {
    /// Well-formedness: at least one segment, every cell on the arena,
    /// and all cells distinct.
    pub open spec fn wf(self) -> bool {
        &&& self.body@.len() >= 1
        &&& cells_on_arena(self.body@)
        &&& self.body@.no_duplicates()
    }

    /// The initial two-segment layout used whenever a game starts:
    /// head over tail, heading up.
    pub open spec fn initial_body() -> Seq<Position> {
        seq![
            Position { x: 5, y: 5 },
            Position { x: 5, y: 4 },
        ]
    }

    /// A fresh snake in the initial two-segment layout.
    pub fn initial() -> (s: Snake)
        ensures
            s.wf(),
            s.body@ == Self::initial_body(),
            s.heading == Direction::Up,
            s.body@.len() == 2,
    {
        let mut body: Vec<Position> = Vec::new();
        body.push(Position { x: 5, y: 5 });
        body.push(Position { x: 5, y: 4 });
        let s = Snake { body, heading: Direction::Up };
        proof {
            assert(s.body@ =~= Self::initial_body());
        }
        s
    }

    /// Number of segments.
    pub fn len(&self) -> (n: usize)
        ensures
            n == self.body@.len(),
    {
        self.body.len()
    }

    /// The head cell.
    pub fn head(&self) -> (r: Position)
        requires
            self.body@.len() >= 1,
        ensures
            r == self.body@[0],
    {
        self.body[0]
    }

    /// Whether some segment occupies the cell `c`.
    pub fn occupies(&self, c: Position) -> (r: bool)
        ensures
            r == self.body@.contains(c),
    {
        let n = self.body.len();
        let mut i: usize = 0;
        while i < n
            invariant
                n == self.body@.len(),
                i <= n,
                forall|j: int| 0 <= j < i ==> self.body@[j] != c,
            decreases n - i,
        {
            if self.body[i] == c {
                return true;
            }
            i = i + 1;
        }
        false
    }

    /// One movement tick. The latched direction becomes the heading; the
    /// head advances one wrapped step in it. If the target cell was
    /// occupied in the pre-move snapshot (the tail before its shift
    /// included), the move is aborted: the body stays exactly as it was
    /// and the outcome is `Collided`. Otherwise every trailing segment
    /// takes its predecessor's snapshot position, the head takes the
    /// target, and the snapshot's tail cell is reported for growth.
    pub fn advance(&mut self, latch: Direction) -> (r: MoveOutcome)
        requires
            old(self).wf(),
        ensures
            final(self).wf(),
            final(self).heading == latch,
            final(self).body@.len() == old(self).body@.len(),
            (r is Collided) <==> old(self).body@.contains(
                step_spec(old(self).body@[0], latch),
            ),
            (r is Collided) ==> final(self).body@ == old(self).body@,
            r matches MoveOutcome::Moved { prev_tail } ==> {
                &&& prev_tail == old(self).body@.last()
                &&& !final(self).body@.contains(prev_tail)
                &&& final(self).body@ == shifted_body(
                    old(self).body@,
                    step_spec(old(self).body@[0], latch),
                )
            },
    {
        self.heading = latch;
        let head = self.body[0];
        let target = step(head, latch);
        if self.occupies(target) {
            return MoveOutcome::Collided;
        }
        let n = self.body.len();
        let prev_tail = self.body[n - 1];
        let ghost orig = self.body@;
        let mut i: usize = n - 1;
        while i >= 1
            invariant
                self.heading == latch,
                self.body@.len() == orig.len(),
                i < orig.len(),
                forall|j: int| 0 <= j <= i ==> self.body@[j] == orig[j],
                forall|j: int| i < j < orig.len() ==> self.body@[j] == orig[j - 1],
            decreases i,
        {
            let prev = self.body[i - 1];
            self.body[i] = prev;
            i = i - 1;
        }
        self.body[0] = target;
        proof {
            assert(self.body@ =~= shifted_body(orig, step_spec(orig[0], latch)));
            assert forall|j: int| 0 <= j < self.body@.len() implies in_bounds(
                #[trigger] self.body@[j],
            ) by {
                if j >= 1 {
                    assert(self.body@[j] == orig[j - 1]);
                }
            }
            assert(self.body@.no_duplicates()) by {
                assert forall|p: int, q: int|
                    0 <= p < self.body@.len() && 0 <= q < self.body@.len() && p != q
                    implies self.body@[p] != self.body@[q] by {
                    if p >= 1 && q >= 1 {
                        assert(self.body@[p] == orig[p - 1]);
                        assert(self.body@[q] == orig[q - 1]);
                    } else if p == 0 && q >= 1 {
                        assert(self.body@[q] == orig[q - 1]);
                        assert(!orig.contains(self.body@[0]));
                    } else {
                        assert(self.body@[p] == orig[p - 1]);
                        assert(!orig.contains(self.body@[0]));
                    }
                }
            }
            assert(!self.body@.contains(orig.last())) by {
                if self.body@.contains(orig.last()) {
                    let w = choose|w: int|
                        0 <= w < self.body@.len() && self.body@[w] == orig.last();
                    if w == 0 {
                        assert(orig.contains(orig.last()));
                    } else {
                        assert(orig[w - 1] == orig[orig.len() - 1]);
                        assert(orig.no_duplicates());
                    }
                }
            }
        }
        MoveOutcome::Moved { prev_tail }
    }

    /// Append a new segment at `cell`, the pre-shift tail position of the
    /// tick that triggered the growth. The cell must be free so the body
    /// stays free of duplicates.
    pub fn grow(&mut self, cell: Position)
        requires
            old(self).wf(),
            in_bounds(cell),
            !old(self).body@.contains(cell),
        ensures
            final(self).wf(),
            final(self).heading == old(self).heading,
            final(self).body@ == old(self).body@.push(cell),
            final(self).body@.len() == old(self).body@.len() + 1,
    {
        let ghost orig = self.body@;
        self.body.push(cell);
        proof {
            assert forall|j: int| 0 <= j < self.body@.len() implies in_bounds(
                #[trigger] self.body@[j],
            ) by {
                if j < orig.len() {
                    assert(self.body@[j] == orig[j]);
                }
            }
            assert(self.body@.no_duplicates()) by {
                assert forall|p: int, q: int|
                    0 <= p < self.body@.len() && 0 <= q < self.body@.len() && p != q
                    implies self.body@[p] != self.body@[q] by {
                    if p < orig.len() && q < orig.len() {
                        assert(self.body@[p] == orig[p]);
                        assert(self.body@[q] == orig[q]);
                    } else if p < orig.len() {
                        assert(self.body@[p] == orig[p]);
                        assert(!orig.contains(cell));
                    } else {
                        assert(self.body@[q] == orig[q]);
                        assert(!orig.contains(cell));
                    }
                }
            }
        }
    }
}

/// The linear index of a cell when rows are laid out one after another.
pub open spec fn cell_index(p: Position) -> int {
    p.x * ARENA_HEIGHT + p.y
}

/// A snake can never have more segments than the arena has cells: any
/// sequence of distinct on-arena cells is at most as long as the arena.
pub proof fn lemma_snake_fits_board(cells: Seq<Position>)
    requires
        cells_on_arena(cells),
        cells.no_duplicates(),
    ensures
        cells.len() <= ARENA_WIDTH * ARENA_HEIGHT,
{
    let f = |p: Position| cell_index(p);
    let idxs = cells.map_values(f);
    let bound = (ARENA_WIDTH * ARENA_HEIGHT) as int;
    assert(idxs.no_duplicates()) by {
        assert forall|p: int, q: int|
            0 <= p < idxs.len() && 0 <= q < idxs.len() && p != q
            implies idxs[p] != idxs[q] by {
            assert(in_bounds(cells[p]));
            assert(in_bounds(cells[q]));
            assert(cells[p] != cells[q]);
        }
    }
    idxs.unique_seq_to_set();
    assert(idxs.to_set().subset_of(set_int_range(0, bound))) by {
        assert forall|e: int| idxs.to_set().contains(e) implies set_int_range(
            0,
            bound,
        ).contains(e) by {
            let w = choose|w: int| 0 <= w < idxs.len() && idxs[w] == e;
            assert(in_bounds(cells[w]));
        }
    }
    lemma_int_range(0, bound);
    lemma_len_subset(idxs.to_set(), set_int_range(0, bound));
}

/// The converse bound: a snake that covers every cell of the arena has
/// exactly as many segments as the arena has cells. Together with the
/// food spawner's contract this says that placement is declined exactly
/// when the snake has grown to the full arena.
pub proof fn lemma_full_cover_is_full_length(cells: Seq<Position>)
    requires
        cells_on_arena(cells),
        cells.no_duplicates(),
        forall|c: Position| in_bounds(c) ==> #[trigger] cells.contains(c),
    ensures
        cells.len() == ARENA_WIDTH * ARENA_HEIGHT,
{
    let f = |p: Position| cell_index(p);
    let idxs = cells.map_values(f);
    let bound = (ARENA_WIDTH * ARENA_HEIGHT) as int;
    lemma_snake_fits_board(cells);
    assert(idxs.no_duplicates()) by {
        assert forall|p: int, q: int|
            0 <= p < idxs.len() && 0 <= q < idxs.len() && p != q
            implies idxs[p] != idxs[q] by {
            assert(in_bounds(cells[p]));
            assert(in_bounds(cells[q]));
            assert(cells[p] != cells[q]);
        }
    }
    idxs.unique_seq_to_set();
    assert(set_int_range(0, bound).subset_of(idxs.to_set())) by {
        assert forall|e: int| set_int_range(0, bound).contains(e) implies idxs.to_set().contains(
            e,
        ) by {
            let c = Position {
                x: (e / (ARENA_HEIGHT as int)) as u32,
                y: (e % (ARENA_HEIGHT as int)) as u32,
            };
            vstd::arithmetic::div_mod::lemma_fundamental_div_mod(e, ARENA_HEIGHT as int);
            vstd::arithmetic::div_mod::lemma_mod_bound(e, ARENA_HEIGHT as int);
            vstd::arithmetic::div_mod::lemma_div_pos_is_pos(e, ARENA_HEIGHT as int);
            assert(in_bounds(c));
            assert(cells.contains(c));
            let w = choose|w: int| 0 <= w < cells.len() && cells[w] == c;
            assert(idxs[w] == cell_index(c));
            assert(cell_index(c) == e);
            assert(idxs.contains(e));
        }
    }
    lemma_int_range(0, bound);
    lemma_len_subset(set_int_range(0, bound), idxs.to_set());
}

} // verus!
