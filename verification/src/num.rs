//! Saturating integer arithmetic and time-scaled division used by the
//! physics integration. All game coordinates are `i64` values kept inside
//! the symmetric range `[-i64::MAX, i64::MAX]`, so that negation is always
//! possible and sums saturate instead of wrapping.

use vstd::prelude::*;

verus! {

/// True when `v` lies in the symmetric coordinate range.
pub open spec fn in_range(v: int) -> bool {
    -(i64::MAX as int) <= v <= i64::MAX as int
}

/// Saturation of an unbounded integer into the symmetric coordinate range.
pub open spec fn sat64(v: int) -> int {
    if v > i64::MAX as int {
        i64::MAX as int
    } else if v < -(i64::MAX as int) {
        -(i64::MAX as int)
    } else {
        v
    }
}

/// Quotient truncated toward zero, as Rust's own integer division rounds.
pub open spec fn div_tz(v: int, d: int) -> int
    recommends
        d >= 1,
{
    if v >= 0 {
        v / d
    } else {
        -((-v) / d)
    }
}

/// Saturating addition on coordinates.
pub fn sat_add64(a: i64, b: i64) -> (r: i64)
    requires
        in_range(a as int),
        in_range(b as int),
    ensures
        r as int == sat64(a + b),
        in_range(r as int),
{
    let s: i128 = a as i128 + b as i128;
    if s > i64::MAX as i128 {
        i64::MAX
    } else if s < -(i64::MAX as i128) {
        -i64::MAX
    } else {
        s as i64
    }
}

/// Divides a coordinate by a positive elapsed-time value, truncating toward
/// zero, so that scaling never changes the sign of a velocity or force.
pub fn div_time64(v: i64, d: i64) -> (r: i64)
    requires
        d >= 1,
        in_range(v as int),
    ensures
        r as int == div_tz(v as int, d as int),
        in_range(r as int),
{
    if v >= 0 {
        let q: u64 = (v as u64) / (d as u64);
        proof {
            vstd::arithmetic::div_mod::lemma_div_nonincreasing(v as int, d as int);
        }
        q as i64
    } else {
        let m: u64 = (-v) as u64;
        let q: u64 = m / (d as u64);
        proof {
            vstd::arithmetic::div_mod::lemma_div_nonincreasing(m as int, d as int);
        }
        -(q as i64)
    }
}

} // verus!
