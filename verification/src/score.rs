//! Score accounting: converts a claimed tile's remaining worth timer into a
//! point value.
//!
//! A tile is worth 2 points per remaining second, truncated toward zero, so a
//! timer of `remaining_ms` milliseconds yields `floor(2 * remaining_ms / 1000)`
//! points. An already elapsed timer yields 0.

use vstd::prelude::*;

use crate::MS_PER_SECOND;
use crate::TILE_WORTH_MS;

verus! {

/// Points awarded for a tile with `worth_ms` milliseconds left on its worth
/// timer: 2 points per remaining second, truncated toward zero.
pub open spec fn points_spec(worth_ms: u64) -> int {
    2 * worth_ms / MS_PER_SECOND as int
}

/// Convert a remaining worth timer into points.
pub fn points(worth_ms: u64) -> (r: u64)
    requires
        worth_ms <= TILE_WORTH_MS,
    ensures
        r == points_spec(worth_ms),
        r <= points_spec(TILE_WORTH_MS),
{
    proof {
        vstd::arithmetic::div_mod::lemma_div_is_ordered(
            2 * worth_ms as int,
            2 * TILE_WORTH_MS as int,
            MS_PER_SECOND as int,
        );
    }
    2 * worth_ms / MS_PER_SECOND
}

} // verus!
