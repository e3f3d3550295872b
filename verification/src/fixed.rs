use vstd::arithmetic::div_mod::{lemma_div_nonincreasing, lemma_div_pos_is_pos};
use vstd::prelude::*;

verus! {

/// Raw steps per unit: a scalar `v` stands for the real quantity `v / SCALE`.
///
/// Geometry is fixed-point throughout the scene graph, so a relative size of
/// one half is the exact raw value `HALF`, and merging it against a parent's
/// absolute size is exact integer arithmetic.
pub const SCALE: i64 = 65536;

/// Raw fixed-point value of one half of a unit.
pub const HALF: i64 = 32768;

/// Truncating division of `a` by a positive divisor `d`: the quotient is
/// rounded toward zero, as machine division of the scalar type rounds.
pub open spec fn tdiv(a: int, d: int) -> int
    recommends
        d > 0,
{
    if a >= 0 {
        a / d
    } else {
        -((-a) / d)
    }
}

/// The fixed-point product of `a` and `b`: the exact integer product scaled
/// back down by `SCALE`, truncated toward zero.
pub open spec fn mul_frac(a: int, b: int) -> int {
    tdiv(a * b, SCALE as int)
}

/// Whether a mathematical integer fits in the scalar type.
pub open spec fn in_range(a: int) -> bool {
    i64::MIN <= a <= i64::MAX
}

/// Truncating division shrinks magnitudes: `|tdiv(a, d)| <= |a|`, and the
/// quotient keeps the sign of `a`.
proof fn lemma_tdiv_bounds(a: int, d: int)
    requires
        d > 0,
    ensures
        a >= 0 ==> 0 <= tdiv(a, d) <= a,
        a < 0 ==> a <= tdiv(a, d) <= 0,
{
    if a >= 0 {
        lemma_div_pos_is_pos(a, d);
        lemma_div_nonincreasing(a, d);
    } else {
        lemma_div_pos_is_pos(-a, d);
        lemma_div_nonincreasing(-a, d);
    }
}

/// Fixed-point multiply on scalars.  The product is widened internally, so
/// the only demand on the caller is that the scaled-down result itself is
/// representable.
pub fn mul_frac_i64(a: i64, b: i64) -> (r: i64)
    requires
        in_range(mul_frac(a as int, b as int)),
    ensures
        r as int == mul_frac(a as int, b as int),
{
    match mul_frac_checked(a, b) {
        Some(r) => r,
        None => vstd::pervasive::unreached(),
    }
}

/// Fixed-point multiply that reports instead of demanding: `None` exactly
/// when the scaled-down product does not fit the scalar type.
pub fn mul_frac_checked(a: i64, b: i64) -> (r: Option<i64>)
    ensures
        r is Some <==> in_range(mul_frac(a as int, b as int)),
        r is Some ==> r->0 as int == mul_frac(a as int, b as int),
{
    proof {
        assert(-0x4000_0000_0000_0000_0000_0000_0000_0000 <= (a as int) * (b as int)
            <= 0x4000_0000_0000_0000_0000_0000_0000_0000) by (nonlinear_arith)
            requires
                -0x8000_0000_0000_0000 <= a as int <= 0x7fff_ffff_ffff_ffff,
                -0x8000_0000_0000_0000 <= b as int <= 0x7fff_ffff_ffff_ffff,
        ;
    }
    let p: i128 = (a as i128) * (b as i128);
    proof {
        lemma_tdiv_bounds(p as int, SCALE as int);
    }
    let q = match p.checked_div(SCALE as i128) {
        Some(q) => q,
        None => vstd::pervasive::unreached(),
    };
    if i64::MIN as i128 <= q && q <= i64::MAX as i128 {
        Some(q as i64)
    } else {
        None
    }
}

/// Half of a scalar, truncated toward zero.  Always representable.
pub fn half_i64(a: i64) -> (r: i64)
    ensures
        r as int == tdiv(a as int, 2),
{
    proof {
        lemma_tdiv_bounds(a as int, 2);
    }
    match a.checked_div(2) {
        Some(r) => r,
        None => vstd::pervasive::unreached(),
    }
}

} // verus!
