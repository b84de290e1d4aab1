//! A cursor over a fixed number of places that stops at both ends.

use vstd::prelude::*;

verus! {

/// The place before `index`, or `index` itself at the first place.
pub open spec fn spec_back(index: int) -> int {
    if index > 0 {
        index - 1
    } else {
        index
    }
}

/// The place after `index` among `count` places, or `index` itself where
/// there is none.
pub open spec fn spec_forward(index: int, count: int) -> int {
    if index + 1 < count {
        index + 1
    } else {
        index
    }
}

/// Moves a cursor one place back and stops at the first place.
pub fn back(index: usize) -> (r: usize)
    ensures
        r == spec_back(index as int),
{
    if index > 0 {
        index - 1
    } else {
        index
    }
}

/// Moves a cursor one place on and stops at the last of `count` places.
pub fn forward(index: usize, count: usize) -> (r: usize)
    ensures
        r == spec_forward(index as int, count as int),
{
    if count > 0 && index < count - 1 {
        index + 1
    } else {
        index
    }
}

/// A cursor that is on one of `count` places stays on one of them, and its
/// moves are the saturating ones: back to `max(index - 1, 0)`, on to
/// `min(index + 1, count - 1)`.
pub proof fn lemma_cursor_clamps(index: int, count: int)
    requires
        0 <= index < count,
    ensures
        0 <= spec_back(index) < count,
        0 <= spec_forward(index, count) < count,
        spec_back(index) == vstd::math::max(index - 1, 0),
        spec_forward(index, count) == vstd::math::min(index + 1, count - 1),
{
}

} // verus!
