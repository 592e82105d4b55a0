//! The input latch: the most recently accepted movement direction,
//! decoupled from the tick rate. A request is accepted only when it is
//! not the exact opposite of the snake's current heading, so the snake
//! can never reverse into itself in one tick.

use vstd::prelude::*;

use crate::grid::Direction;
use crate::grid::opposite_spec;

verus! {

/// The latch after one input sample: the requested direction (or, with
/// no request, the latch itself) becomes the new latch unless it is the
/// opposite of the current heading, in which case the latch is kept.
pub open spec fn latch_spec(
    heading: Direction,
    latch: Direction,
    requested: Option<Direction>,
) -> Direction {
    let candidate = match requested {
        Option::Some(d) => d,
        Option::None => latch,
    };
    if candidate != opposite_spec(heading) {
        candidate
    } else {
        latch
    }
}

/// Sample one input: fold a requested direction into the latch, refusing
/// a request that would reverse the current heading on the spot.
pub fn latch_direction(
    heading: Direction,
    latch: Direction,
    requested: Option<Direction>,
) -> (r: Direction)
    ensures
        r == latch_spec(heading, latch, requested),
{
    let candidate = match requested {
        Option::Some(d) => d,
        Option::None => latch,
    };
    if candidate != heading.opposite() {
        candidate
    } else {
        latch
    }
}

/// The reversal guard: as long as the latch is not already the opposite
/// of the heading, no input sample can make it so. Since a tick commits
/// the latch as the new heading, the snake never reverses in one tick.
pub proof fn lemma_latch_never_reverses(
    heading: Direction,
    latch: Direction,
    requested: Option<Direction>,
)
    requires
        latch != opposite_spec(heading),
    ensures
        latch_spec(heading, latch, requested) != opposite_spec(heading),
{
}

} // verus!
