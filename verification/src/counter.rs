//! Statistics counters: they count up by one and stay at the largest value
//! once they have reached it.

use vstd::prelude::*;

verus! {

/// A counter advanced by one, held at `usize::MAX`.
pub open spec fn bumped(n: usize) -> usize {
    if n < usize::MAX {
        (n + 1) as usize
    } else {
        n
    }
}

/// Advances a statistics counter by one; a counter at `usize::MAX` stays there.
pub fn bump(n: usize) -> (r: usize)
    ensures
        r == bumped(n),
{
    if n < usize::MAX {
        n + 1
    } else {
        n
    }
}

} // verus!
