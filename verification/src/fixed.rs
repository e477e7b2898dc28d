//! Saturating fixed-point scalar arithmetic.
//!
//! Every physical quantity in the simulation is an `i64` holding the real
//! value times [`SCALE`]. Sums, products and quotients are computed in `i128`
//! and saturated into `[-SAT, SAT]`, and division by zero yields zero, so
//! every operation is a total function whose exact result is given by the
//! spec functions in this module.

use vstd::prelude::*;

verus! {

use vstd::arithmetic::div_mod::lemma_div_is_ordered_by_denominator;
use vstd::arithmetic::div_mod::lemma_div_pos_is_pos;
use vstd::arithmetic::div_mod::lemma_div_basics_1;
use vstd::arithmetic::div_mod::lemma_div_nonincreasing;

/// Number of raw units per whole unit.
pub const SCALE: i64 = 10_000;

/// Largest raw magnitude a scalar may hold; results saturate into [-SAT, SAT].
pub const SAT: i64 = 1_000_000_000_000_000;

/// Whether a mathematical integer lies in the representable scalar range.
pub open spec fn fx_ok(x: int) -> bool {
    -(SAT as int) <= x <= SAT as int
}

/// Saturate a mathematical integer into the representable range.
pub open spec fn sat_i(x: int) -> int {
    if x > SAT as int {
        SAT as int
    } else if x < -(SAT as int) {
        -(SAT as int)
    } else {
        x
    }
}

/// Truncating (round-toward-zero) division, for a positive divisor.
pub open spec fn tdiv(x: int, d: int) -> int
    recommends
        d > 0,
{
    if x >= 0 {
        x / d
    } else {
        -((-x) / d)
    }
}

/// Truncating division for any nonzero divisor, as machine division rounds.
pub open spec fn tdiv_s(x: int, d: int) -> int
    recommends
        d != 0,
{
    if d > 0 {
        tdiv(x, d)
    } else {
        -tdiv(x, -d)
    }
}

/// Fixed-point sum.
pub open spec fn fx_add(a: int, b: int) -> int {
    sat_i(a + b)
}

/// Fixed-point difference.
pub open spec fn fx_sub(a: int, b: int) -> int {
    sat_i(a - b)
}

/// Fixed-point negation.
pub open spec fn fx_neg(a: int) -> int {
    sat_i(-a)
}

/// Fixed-point product.
pub open spec fn fx_mul(a: int, b: int) -> int {
    sat_i(tdiv(a * b, SCALE as int))
}

/// Fixed-point quotient; a zero divisor yields zero, keeping the operation total.
pub open spec fn fx_div(a: int, b: int) -> int {
    if b == 0 {
        0
    } else {
        sat_i(tdiv_s(a * SCALE, b))
    }
}

/// Clamp into [lo, hi].
pub open spec fn clamp_i(x: int, lo: int, hi: int) -> int
    recommends
        lo <= hi,
{
    if x < lo {
        lo
    } else if x > hi {
        hi
    } else {
        x
    }
}

/// A product of two `i64`-range factors stays within `i128`.
proof fn lemma_product_fits_i128(a: int, b: int)
    requires
        -0x8000_0000_0000_0000 <= a <= 0x7fff_ffff_ffff_ffff,
        -0x8000_0000_0000_0000 <= b <= 0x7fff_ffff_ffff_ffff,
    ensures
        i128::MIN <= a * b <= i128::MAX,
{
    assert(-0x4000_0000_0000_0000_0000_0000_0000_0000 <= a * b
        <= 0x4000_0000_0000_0000_0000_0000_0000_0000) by (nonlinear_arith)
        requires
            -0x8000_0000_0000_0000 <= a <= 0x8000_0000_0000_0000,
            -0x8000_0000_0000_0000 <= b <= 0x8000_0000_0000_0000,
    ;
}

/// The magnitude of a truncating quotient never exceeds the dividend's.
proof fn lemma_tdiv_bound(x: int, d: int)
    requires
        d > 0,
    ensures
        x >= 0 ==> 0 <= tdiv(x, d) <= x,
        x < 0 ==> x <= tdiv(x, d) <= 0,
{
    if x >= 0 {
        lemma_div_pos_is_pos(x, d);
        lemma_div_nonincreasing(x, d);
    } else {
        lemma_div_pos_is_pos(-x, d);
        lemma_div_nonincreasing(-x, d);
    }
}

/// Saturate an `i128` intermediate into an `i64` scalar.
fn sat_x(x: i128) -> (r: i64)
    ensures
        r as int == sat_i(x as int),
{
    if x > SAT as i128 {
        SAT
    } else if x < -(SAT as i128) {
        -SAT
    } else {
        x as i64
    }
}

/// Fixed-point addition, saturating.
pub fn add_fx(a: i64, b: i64) -> (r: i64)
    ensures
        r as int == fx_add(a as int, b as int),
{
    sat_x(a as i128 + b as i128)
}

/// Fixed-point subtraction, saturating.
pub fn sub_fx(a: i64, b: i64) -> (r: i64)
    ensures
        r as int == fx_sub(a as int, b as int),
{
    sat_x(a as i128 - b as i128)
}

/// Fixed-point negation, saturating.
pub fn neg_fx(a: i64) -> (r: i64)
    ensures
        r as int == fx_neg(a as int),
{
    sat_x(-(a as i128))
}

/// Fixed-point multiplication, saturating.
pub fn mul_fx(a: i64, b: i64) -> (r: i64)
    ensures
        r as int == fx_mul(a as int, b as int),
{
    proof {
        lemma_product_fits_i128(a as int, b as int);
    }
    let p: i128 = (a as i128) * (b as i128);
    proof {
        lemma_tdiv_bound(p as int, SCALE as int);
    }
    let q: i128 = p.checked_div(SCALE as i128).unwrap();
    assert(q as int == tdiv(p as int, SCALE as int));
    sat_x(q)
}

/// Fixed-point division, saturating; a zero divisor yields zero.
pub fn div_fx(a: i64, b: i64) -> (r: i64)
    ensures
        r as int == fx_div(a as int, b as int),
{
    if b == 0 {
        return 0;
    }
    proof {
        lemma_product_fits_i128(a as int, SCALE as int);
    }
    let n: i128 = (a as i128) * (SCALE as i128);
    proof {
        if b > 0 {
            lemma_tdiv_bound(n as int, b as int);
        } else {
            lemma_tdiv_bound(n as int, -b as int);
        }
    }
    let q: i128 = n.checked_div(b as i128).unwrap();
    assert(q as int == tdiv_s(n as int, b as int));
    sat_x(q)
}

/// Clamp a scalar into [lo, hi].
pub fn clamp_fx(x: i64, lo: i64, hi: i64) -> (r: i64)
    requires
        lo <= hi,
    ensures
        r as int == clamp_i(x as int, lo as int, hi as int),
{
    if x < lo {
        lo
    } else if x > hi {
        hi
    } else {
        x
    }
}

/// The integer square root: the unique r with r * r <= x < (r + 1) * (r + 1).
pub open spec fn sqrt_floor(x: int) -> int
    recommends
        x >= 0,
{
    choose|r: int| 0 <= r && #[trigger] (r * r) <= x && x < (r + 1) * (r + 1)
}

/// Any two nonnegative integers whose squares bracket x the same way are equal.
proof fn lemma_sqrt_unique(x: int, r1: int, r2: int)
    requires
        0 <= r1,
        0 <= r2,
        r1 * r1 <= x,
        x < (r1 + 1) * (r1 + 1),
        r2 * r2 <= x,
        x < (r2 + 1) * (r2 + 1),
    ensures
        r1 == r2,
{
    if r1 < r2 {
        assert((r1 + 1) * (r1 + 1) <= r2 * r2) by (nonlinear_arith)
            requires
                0 <= r1,
                r1 < r2,
        ;
    }
    if r2 < r1 {
        assert((r2 + 1) * (r2 + 1) <= r1 * r1) by (nonlinear_arith)
            requires
                0 <= r2,
                r2 < r1,
        ;
    }
}

/// Integer square root of a u128, by bisection.
pub fn sqrt_u128(x: u128) -> (r: u64)
    ensures
        r as int == sqrt_floor(x as int),
        (r as int) * (r as int) <= x as int,
        (x as int) < (r as int + 1) * (r as int + 1),
{
    let mut lo: u128 = 0;
    let mut hi: u128 = 0x1_0000_0000_0000_0000;
    proof {
        assert((hi as int) * (hi as int) > u128::MAX as int) by (nonlinear_arith)
            requires
                hi == 0x1_0000_0000_0000_0000u128,
        ;
    }
    while lo + 1 < hi
        invariant
            lo < hi,
            hi <= 0x1_0000_0000_0000_0000,
            (lo as int) * (lo as int) <= x as int,
            (x as int) < (hi as int) * (hi as int),
        decreases hi - lo,
    {
        let mid: u128 = lo + (hi - lo) / 2;
        assert(lo < mid && mid < hi);
        proof {
            assert(mid * mid <= u128::MAX) by (nonlinear_arith)
                requires
                    mid < 0x1_0000_0000_0000_0000u128,
            ;
        }
        if mid * mid <= x {
            lo = mid;
        } else {
            hi = mid;
        }
    }
    proof {
        assert(hi == lo + 1);
        lemma_sqrt_unique(x as int, lo as int, sqrt_floor(x as int));
    }
    lo as u64
}

/// Euclidean length of a raw (dx, dy) displacement, saturated.
pub open spec fn fx_len(dx: int, dy: int) -> int {
    sat_i(sqrt_floor(dx * dx + dy * dy))
}

/// The square of an `i64` is nonnegative and fits below 2^126.
proof fn lemma_square_bounds(a: int)
    requires
        -0x8000_0000_0000_0000 <= a <= 0x7fff_ffff_ffff_ffff,
    ensures
        0 <= a * a <= 0x4000_0000_0000_0000_0000_0000_0000_0000,
{
    assert(0 <= a * a <= 0x4000_0000_0000_0000_0000_0000_0000_0000) by (nonlinear_arith)
        requires
            -0x8000_0000_0000_0000 <= a <= 0x8000_0000_0000_0000,
    ;
}

/// Length of a displacement whose components are raw scalars.
pub fn len_fx(dx: i64, dy: i64) -> (r: i64)
    ensures
        r as int == fx_len(dx as int, dy as int),
        0 <= r <= SAT,
{
    proof {
        lemma_square_bounds(dx as int);
        lemma_square_bounds(dy as int);
    }
    let px: i128 = dx as i128 * dx as i128;
    let py: i128 = dy as i128 * dy as i128;
    let s: u128 = px as u128 + py as u128;
    let root: u64 = sqrt_u128(s);
    proof {
        assert((root as int) * (root as int) <= s as int);
    }
    if root > SAT as u64 {
        SAT
    } else {
        root as i64
    }
}

} // verus!
