use vstd::prelude::*;
use vstd::arithmetic::div_mod::{lemma_fundamental_div_mod, lemma_fundamental_div_mod_converse};

verus! {

/// One degree, in the crate's angle unit (microdegrees).
pub const DEGREE: i64 = 1_000_000;

/// Half a turn: 180 degrees.
pub const HALF_TURN: i64 = 180_000_000;

/// A whole turn: 360 degrees.
pub const FULL_TURN: i64 = 360_000_000;

/// The largest pitch magnitude: 90 degrees.
pub const PITCH_LIMIT: i64 = 90_000_000;

/// The representative of `a` modulo a full turn in `(-HALF_TURN, HALF_TURN]`.
pub open spec fn wrap_angle(a: int) -> int {
    let m = a % (FULL_TURN as int);
    if m > HALF_TURN { m - FULL_TURN } else { m }
}

/// `a` limited to `[-PITCH_LIMIT, PITCH_LIMIT]`.
pub open spec fn clamp_pitch(a: int) -> int {
    if a < -PITCH_LIMIT {
        -PITCH_LIMIT
    } else if a > PITCH_LIMIT {
        PITCH_LIMIT as int
    } else {
        a
    }
}

/// Adding a multiple of a full turn does not change the wrapped angle.
pub proof fn lemma_wrap_turns(a: int, k: int)
    ensures
        wrap_angle(a + k * FULL_TURN) == wrap_angle(a),
{
    let f = FULL_TURN as int;
    lemma_fundamental_div_mod(a, f);
    let q = a / f;
    let r = a % f;
    assert(a + k * f == (q + k) * f + r) by (nonlinear_arith)
        requires
            a == f * q + r,
    ;
    lemma_fundamental_div_mod_converse(a + k * f, f, q + k, r);
}

/// `a % FULL_TURN` for any `a` that an `i128` holds.
pub(crate) fn turn_remainder(a: i128) -> (r: i128)
    requires
        a > i128::MIN,
    ensures
        r == a as int % (FULL_TURN as int),
        0 <= r < FULL_TURN,
{
    let f: u128 = FULL_TURN as u128;
    if a >= 0 {
        ((a as u128) % f) as i128
    } else {
        let b: u128 = (-(a + 1)) as u128;
        let k: u128 = b % f;
        proof {
            lemma_fundamental_div_mod(b as int, f as int);
            let q = b as int / f as int;
            assert(a as int == (-q - 1) * (f as int) + (f as int - 1 - k as int)) by (nonlinear_arith)
                requires
                    b as int == (f as int) * q + k as int,
                    a as int == -(b as int) - 1,
            ;
            lemma_fundamental_div_mod_converse(a as int, f as int, -q - 1, f as int - 1 - k as int);
        }
        (FULL_TURN as i128) - 1 - (k as i128)
    }
}

/// Wraps an angle into `(-HALF_TURN, HALF_TURN]`.
pub fn wrap(a: i128) -> (r: i64)
    requires
        a > i128::MIN,
    ensures
        r == wrap_angle(a as int),
        -HALF_TURN < r <= HALF_TURN,
{
    let m: i128 = turn_remainder(a);
    if m > HALF_TURN as i128 {
        (m - FULL_TURN as i128) as i64
    } else {
        m as i64
    }
}

/// Limits a pitch to `[-PITCH_LIMIT, PITCH_LIMIT]`.
pub fn clamp(a: i128) -> (r: i64)
    ensures
        r == clamp_pitch(a as int),
{
    if a < -(PITCH_LIMIT as i128) {
        -PITCH_LIMIT
    } else if a > PITCH_LIMIT as i128 {
        PITCH_LIMIT
    } else {
        a as i64
    }
}

} // verus!
