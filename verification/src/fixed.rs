//! Fixed-point helpers shared by the whole crate: saturating arithmetic,
//! truncating division by a positive scale, clamping, and normalization of
//! millidegree angles into the half-open turn `(-180_000, 180_000]`.

use vstd::prelude::*;

verus! {

use vstd::arithmetic::div_mod::{
    lemma_fundamental_div_mod, lemma_mod_multiples_vanish, lemma_small_mod,
};

/// Scale of a fractional milli value: 1000 = 1.0.
pub const MILLI: i64 = 1000;

/// Scale of a fractional micro value: 1_000_000 = 1.0.
pub const MICRO: i64 = 1_000_000;

/// One full turn in millidegrees.
pub const FULL_TURN: i64 = 360_000;

/// Half a turn in millidegrees.
pub const HALF_TURN: i64 = 180_000;

/// Absolute value.
pub open spec fn abs_spec(x: int) -> int {
    if x < 0 {
        -x
    } else {
        x
    }
}

/// Mathematical value of `x` clamped to the representable `i64` range.
pub open spec fn sat_i64(x: int) -> int {
    if x > i64::MAX as int {
        i64::MAX as int
    } else if x < i64::MIN as int {
        i64::MIN as int
    } else {
        x
    }
}

/// `x` clamped to `[lo, hi]`.
pub open spec fn clamp_spec(x: int, lo: int, hi: int) -> int {
    if x < lo {
        lo
    } else if x > hi {
        hi
    } else {
        x
    }
}

/// Truncating (round-toward-zero) division of `a` by a positive divisor `d`.
pub open spec fn tdiv_spec(a: int, d: int) -> int {
    if a >= 0 {
        a / d
    } else {
        -((-a) / d)
    }
}

/// `a` reduced to the equivalent angle in `(-HALF_TURN, HALF_TURN]`
/// millidegrees.
pub open spec fn norm_angle_spec(a: int) -> int {
    let m = a % (FULL_TURN as int);
    if m > HALF_TURN as int {
        m - FULL_TURN as int
    } else {
        m
    }
}

/// Bounds a product by the product of the operands' bounds.
pub proof fn lemma_mul_bound(a: int, b: int, bound_a: int, bound_b: int)
    by (nonlinear_arith)
    requires
        -bound_a <= a <= bound_a,
        -bound_b <= b <= bound_b,
        0 <= bound_a,
        0 <= bound_b,
    ensures
        -(bound_a * bound_b) <= a * b <= bound_a * bound_b,
{
}

/// Saturating addition.
pub fn sat_add(a: i64, b: i64) -> (r: i64)
    ensures
        r as int == sat_i64(a as int + b as int),
{
    match a.checked_add(b) {
        Some(s) => s,
        None => if a > 0 {
            i64::MAX
        } else {
            i64::MIN
        },
    }
}

/// Saturating subtraction.
pub fn sat_sub(a: i64, b: i64) -> (r: i64)
    ensures
        r as int == sat_i64(a as int - b as int),
{
    match a.checked_sub(b) {
        Some(s) => s,
        None => if a >= 0 {
            i64::MAX
        } else {
            i64::MIN
        },
    }
}

/// Saturating multiplication.
pub fn sat_mul(a: i64, b: i64) -> (r: i64)
    ensures
        r as int == sat_i64(a as int * b as int),
{
    match a.checked_mul(b) {
        Some(p) => p,
        None => {
            proof {
                assert(a != 0 && b != 0) by {
                    assert(a == 0 ==> a as int * b as int == 0) by (nonlinear_arith);
                    assert(b == 0 ==> a as int * b as int == 0) by (nonlinear_arith);
                }
                assert(a > 0 && b > 0 ==> (a as int) * (b as int) > 0) by (nonlinear_arith);
                assert(a < 0 && b < 0 ==> (a as int) * (b as int) > 0) by (nonlinear_arith);
                assert(a > 0 && b < 0 ==> (a as int) * (b as int) < 0) by (nonlinear_arith);
                assert(a < 0 && b > 0 ==> (a as int) * (b as int) < 0) by (nonlinear_arith);
            }
            if (a < 0) == (b < 0) {
                i64::MAX
            } else {
                i64::MIN
            }
        },
    }
}

/// Saturating absolute difference.
pub fn sat_abs_diff(a: i64, b: i64) -> (r: i64)
    ensures
        r as int == sat_i64(abs_spec(a as int - b as int)),
        r >= 0,
{
    if a >= b {
        sat_sub(a, b)
    } else {
        sat_sub(b, a)
    }
}

/// `x` clamped to `[lo, hi]`.
pub fn clamp(x: i64, lo: i64, hi: i64) -> (r: i64)
    requires
        lo <= hi,
    ensures
        r as int == clamp_spec(x as int, lo as int, hi as int),
        lo <= r <= hi,
{
    if x < lo {
        lo
    } else if x > hi {
        hi
    } else {
        x
    }
}

/// Truncating division by a positive scale, total in `a`.
pub fn tdiv(a: i64, d: i64) -> (r: i64)
    requires
        2 <= d,
    ensures
        r as int == tdiv_spec(a as int, d as int),
        a >= 0 ==> 0 <= r <= a,
        a < 0 ==> a <= r <= 0,
{
    if a >= 0 {
        ((a as u64) / (d as u64)) as i64
    } else {
        // -a computed without overflow, valid even for i64::MIN
        let m = ((-(a + 1)) as u64) + 1;
        let q = m / (d as u64);
        proof {
            lemma_fundamental_div_mod(m as int, d as int);
            assert((d as int) * (q as int) <= m as int);
            assert((q as int) * 2 <= (d as int) * (q as int)) by (nonlinear_arith)
                requires
                    q >= 0 && d >= 2,
            ;
            assert(q as int <= 0x4000_0000_0000_0000);
        }
        -(q as i64)
    }
}

/// Normalizes a millidegree angle into `(-HALF_TURN, HALF_TURN]`.
pub fn norm_angle(a: i64) -> (r: i64)
    ensures
        r as int == norm_angle_spec(a as int),
        -HALF_TURN < r <= HALF_TURN,
{
    let base: i64 = if a == i64::MIN {
        proof {
            lemma_mod_multiples_vanish(1, a as int, FULL_TURN as int);
        }
        a + FULL_TURN
    } else {
        a
    };
    let m: i64 = if base >= 0 {
        ((base as u64) % (FULL_TURN as u64)) as i64
    } else {
        let y = (-base) as u64;
        let neg_rem = (y % (FULL_TURN as u64)) as i64;
        proof {
            let n = FULL_TURN as int;
            let yi = y as int;
            lemma_fundamental_div_mod(yi, n);
            // base == n * (-(yi / n) - 1) + (n - neg_rem) when the remainder
            // is nonzero, and n * (-(yi / n)) otherwise.
            if neg_rem == 0 {
                lemma_mod_multiples_vanish(-(yi / n), 0, n);
                lemma_small_mod(0, n as nat);
            } else {
                lemma_mod_multiples_vanish(-(yi / n) - 1, n - neg_rem, n);
                lemma_small_mod((n - neg_rem) as nat, n as nat);
            }
        }
        if neg_rem == 0 {
            0
        } else {
            FULL_TURN - neg_rem
        }
    };
    if m > HALF_TURN {
        m - FULL_TURN
    } else {
        m
    }
}

} // verus!
