//! The difficulty curve: maps elapsed real session time to the relative
//! speed of virtual time.
//!
//! The curve is the quadratic ease-in `speed(t) = (2 / T^2) * t^2 + 1` over a
//! session of length `T`, rising from 1x at the start to 3x at the end. With
//! times in milliseconds and multipliers in thousandths this is exact integer
//! arithmetic: `speed_milli(t) = SPEED_SCALE + 2 * SPEED_SCALE * t^2 / T^2`,
//! truncated toward zero.

use vstd::prelude::*;

use vstd::arithmetic::div_mod::lemma_div_is_ordered;
use vstd::arithmetic::div_mod::lemma_div_multiples_vanish;
use vstd::arithmetic::mul::lemma_mul_inequality;
use vstd::arithmetic::mul::lemma_mul_is_associative;
use vstd::arithmetic::mul::lemma_mul_is_commutative;

use crate::GAME_DURATION_MS;
use crate::SPEED_SCALE;

verus! {

/// Speed multiplier of virtual time, in thousandths, after `t_ms`
/// milliseconds of real session time.
pub open spec fn speed_milli_spec(t_ms: u64) -> int {
    SPEED_SCALE + 2 * SPEED_SCALE * t_ms * t_ms / (GAME_DURATION_MS * GAME_DURATION_MS)
}

/// The square of `t1` is bounded by the square of `t2` whenever `0 <= t1 <= t2`.
proof fn lemma_square_ordered(t1: int, t2: int)
    requires
        0 <= t1 <= t2,
    ensures
        t1 * t1 <= t2 * t2,
{
    lemma_mul_inequality(t1, t2, t1);
    lemma_mul_is_commutative(t2, t1);
    lemma_mul_inequality(t1, t2, t2);
}

/// The quadratic term of the curve is ordered in the elapsed time.
proof fn lemma_curve_term_ordered(t1: u64, t2: u64)
    requires
        t1 <= t2,
    ensures
        2 * SPEED_SCALE * t1 * t1 / (GAME_DURATION_MS * GAME_DURATION_MS) <= 2 * SPEED_SCALE * t2
            * t2 / (GAME_DURATION_MS * GAME_DURATION_MS),
{
    let s2 = 2 * SPEED_SCALE as int;
    let a1 = t1 as int * t1 as int;
    let a2 = t2 as int * t2 as int;
    lemma_square_ordered(t1 as int, t2 as int);
    lemma_mul_inequality(a1, a2, s2);
    lemma_mul_is_commutative(a1, s2);
    lemma_mul_is_commutative(a2, s2);
    lemma_mul_is_associative(s2, t1 as int, t1 as int);
    lemma_mul_is_associative(s2, t2 as int, t2 as int);
    lemma_div_is_ordered(s2 * a1, s2 * a2, GAME_DURATION_MS as int * GAME_DURATION_MS as int);
}

/// The quadratic term reaches exactly `2 * SPEED_SCALE` at the end of the
/// session.
proof fn lemma_curve_term_at_end()
    ensures
        2 * SPEED_SCALE * GAME_DURATION_MS * GAME_DURATION_MS / (GAME_DURATION_MS
            * GAME_DURATION_MS) == 2 * SPEED_SCALE,
{
    let s2 = 2 * SPEED_SCALE as int;
    let gmax = GAME_DURATION_MS as int * GAME_DURATION_MS as int;
    lemma_mul_is_associative(s2, GAME_DURATION_MS as int, GAME_DURATION_MS as int);
    lemma_mul_is_commutative(gmax, s2);
    lemma_div_multiples_vanish(s2, gmax);
    assert(gmax * s2 / gmax == s2);
}

/// Compute the speed multiplier, in thousandths, for an elapsed real time
/// within the session.
pub fn speed_milli(t_ms: u64) -> (r: u64)
    requires
        t_ms <= GAME_DURATION_MS,
    ensures
        r == speed_milli_spec(t_ms),
        SPEED_SCALE <= r <= 3 * SPEED_SCALE,
{
    proof {
        lemma_square_ordered(t_ms as int, GAME_DURATION_MS as int);
        lemma_mul_is_associative(2 * SPEED_SCALE as int, t_ms as int, t_ms as int);
        lemma_curve_term_ordered(t_ms, GAME_DURATION_MS);
        lemma_curve_term_at_end();
    }
    let sq = t_ms * t_ms;
    SPEED_SCALE + 2 * SPEED_SCALE * sq / (GAME_DURATION_MS * GAME_DURATION_MS)
}

/// Difficulty never relaxes: the speed multiplier is monotone in elapsed
/// time.
pub proof fn lemma_speed_monotone(t1: u64, t2: u64)
    requires
        t1 <= t2,
    ensures
        speed_milli_spec(t1) <= speed_milli_spec(t2),
{
    lemma_curve_term_ordered(t1, t2);
}

/// The curve starts at exactly 1x and ends at exactly 3x.
pub proof fn lemma_speed_endpoints()
    ensures
        speed_milli_spec(0) == SPEED_SCALE,
        speed_milli_spec(GAME_DURATION_MS) == 3 * SPEED_SCALE,
{
    lemma_curve_term_at_end();
}

} // verus!
