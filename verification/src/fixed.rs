//! Fixed-point scalars.
//!
//! Every length, angle, sensitivity and pointer delta of the rig is an `i64`
//! that counts millionths: `ONE` stands for 1.0, lengths are in world units,
//! angles in radians. Sums and products are computed exactly and then
//! saturated to the range of `i64`, so no operation can fail.

use vstd::prelude::*;

verus! {

/// The fixed-point representation of 1.0.
pub const ONE: i64 = 1_000_000;

/// The smoothing time constant in microseconds: a tenth of a second.
pub const TIME_CONSTANT: u64 = 100_000;

/// Whether `v` is representable without saturation.
pub open spec fn in_range(v: int) -> bool {
    i64::MIN <= v <= i64::MAX
}

/// `v` saturated to the range of `i64`.
pub open spec fn clamp(v: int) -> int {
    if v < i64::MIN {
        i64::MIN as int
    } else if v > i64::MAX {
        i64::MAX as int
    } else {
        v
    }
}

/// `n / d` rounded toward zero, for a positive `d`.
pub open spec fn quotient(n: int, d: int) -> int
    recommends
        d > 0,
{
    if n >= 0 {
        n / d
    } else {
        -((-n) / d)
    }
}

/// The fixed-point product of `a` and `b`, before saturation.
pub open spec fn product(a: int, b: int) -> int {
    quotient(a * b, ONE as int)
}

/// The value a fraction `elapsed / TIME_CONSTANT` of the way from `from` to
/// `to`, before saturation. The fraction is not capped at one.
pub open spec fn interpolated(from: int, to: int, elapsed: int) -> int {
    from + quotient((to - from) * elapsed, TIME_CONSTANT as int)
}

pub proof fn lemma_product_fits(a: int, b: int)
    requires
        in_range(a),
        in_range(b),
    ensures
        -0x4000_0000_0000_0000_0000_0000_0000_0000 <= a * b
            <= 0x4000_0000_0000_0000_0000_0000_0000_0000,
{
    assert(-0x4000_0000_0000_0000_0000_0000_0000_0000 <= a * b
        <= 0x4000_0000_0000_0000_0000_0000_0000_0000) by (nonlinear_arith)
        requires
            -0x8000_0000_0000_0000 <= a <= 0x8000_0000_0000_0000,
            -0x8000_0000_0000_0000 <= b <= 0x8000_0000_0000_0000,
    ;
}

/// Saturates a wide intermediate result.
pub fn saturate(v: i128) -> (r: i64)
    ensures
        r == clamp(v as int),
{
    if v < i64::MIN as i128 {
        i64::MIN
    } else if v > i64::MAX as i128 {
        i64::MAX
    } else {
        v as i64
    }
}

/// Saturating sum.
pub fn plus(a: i64, b: i64) -> (r: i64)
    ensures
        r == clamp(a + b),
{
    saturate(a as i128 + b as i128)
}

/// Saturating difference.
pub fn minus(a: i64, b: i64) -> (r: i64)
    ensures
        r == clamp(a - b),
{
    saturate(a as i128 - b as i128)
}

/// Saturating negation.
pub fn negate(a: i64) -> (r: i64)
    ensures
        r == clamp(-a),
{
    saturate(-(a as i128))
}

/// Saturating fixed-point product, rounded toward zero.
pub fn times(a: i64, b: i64) -> (r: i64)
    ensures
        r == clamp(product(a as int, b as int)),
{
    proof {
        lemma_product_fits(a as int, b as int);
    }
    let wide: i128 = (a as i128) * (b as i128);
    saturate(wide / (ONE as i128))
}

/// The affine map `slope * x + offset` in saturating fixed-point arithmetic.
pub fn affine(slope: i64, x: i64, offset: i64) -> (r: i64)
    ensures
        r == clamp(clamp(product(slope as int, x as int)) + offset),
{
    plus(times(slope, x), offset)
}

/// Moves `from` toward `to` by the fraction `elapsed / TIME_CONSTANT` of their
/// difference, rounded toward zero and saturated. An `elapsed` above
/// `TIME_CONSTANT` carries the result past `to`.
pub fn blend(from: i64, to: i64, elapsed: u64) -> (r: i64)
    ensures
        r == clamp(interpolated(from as int, to as int, elapsed as int)),
{
    let gap: i128 = to as i128 - from as i128;
    let size: u128 = if gap >= 0 {
        gap as u128
    } else {
        (-gap) as u128
    };
    assert(size * elapsed <= 0xffff_ffff_ffff_ffff * 0xffff_ffff_ffff_ffff) by (nonlinear_arith)
        requires
            0 <= size <= 0xffff_ffff_ffff_ffff,
            0 <= elapsed <= 0xffff_ffff_ffff_ffff,
    ;
    let wide: u128 = size * (elapsed as u128);
    let share: u128 = wide / (TIME_CONSTANT as u128);
    let step: i128 = if gap >= 0 {
        share as i128
    } else {
        -(share as i128)
    };
    proof {
        let g: int = gap as int;
        let e: int = elapsed as int;
        if g >= 0 {
            assert(g * e >= 0) by (nonlinear_arith)
                requires
                    g >= 0,
                    e >= 0,
            ;
        } else {
            assert(-(g * e) == (-g) * e && g * e <= 0) by (nonlinear_arith)
                requires
                    g < 0,
                    e >= 0,
            ;
        }
        assert(step == quotient(g * e, TIME_CONSTANT as int));
    }
    saturate(from as i128 + step)
}

} // verus!
