//! The one place where the simulation touches a random number generator.
//! Food placement needs uniform draws; everything done with a draw is
//! verified for every value the draw can take.

use vstd::prelude::*;

verus! {

/// Relies on fastrand::u32: a draw from the range `0..n` is some value
/// below `n`, and the range is nonempty (`n` is positive), so the call
/// does not panic. Nothing more is assumed of the draw.
#[verifier::external_body]
pub(crate) fn random_below(n: u32) -> (r: u32)
    requires
        1 <= n,
    ensures
        r < n,
{
    fastrand::u32(0..n)
}

} // verus!
