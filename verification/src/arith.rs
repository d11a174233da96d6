//! Saturating and clamping arithmetic on `i32`/`u32`, with exact contracts.
//!
//! The game rules are defined over two's-complement fixed-width integers where
//! saturation is the default overflow behaviour, so every helper here pins its
//! result down to a mathematical clamp of the unbounded value.

use vstd::prelude::*;

verus! {

/// The unbounded sum/difference/product clamped to the `i32` range.
pub open spec fn clip_i32(x: int) -> int {
    if x < i32::MIN as int {
        i32::MIN as int
    } else if x > i32::MAX as int {
        i32::MAX as int
    } else {
        x
    }
}

/// The unbounded value clamped to the `u32` range.
pub open spec fn clip_u32(x: int) -> int {
    if x < 0 {
        0
    } else if x > u32::MAX as int {
        u32::MAX as int
    } else {
        x
    }
}

/// `a + b` with saturation at the `i32` bounds.
pub fn sat_add_i32(a: i32, b: i32) -> (r: i32)
    ensures
        r as int == clip_i32(a + b),
{
    match a.checked_add(b) {
        Some(v) => v,
        None => {
            if b > 0 {
                i32::MAX
            } else {
                i32::MIN
            }
        },
    }
}

/// `a - b` with saturation at the `i32` bounds.
pub fn sat_sub_i32(a: i32, b: i32) -> (r: i32)
    ensures
        r as int == clip_i32(a - b),
{
    match a.checked_sub(b) {
        Some(v) => v,
        None => {
            if b < 0 {
                i32::MAX
            } else {
                i32::MIN
            }
        },
    }
}

/// `a * b` with saturation at the `i32` bounds.
pub fn sat_mul_i32(a: i32, b: i32) -> (r: i32)
    ensures
        r as int == clip_i32(a * b),
{
    match a.checked_mul(b) {
        Some(v) => v,
        None => {
            if (a > 0) == (b > 0) {
                proof {
                    lemma_mul_sign(a as int, b as int);
                }
                i32::MAX
            } else {
                proof {
                    lemma_mul_sign(a as int, b as int);
                }
                i32::MIN
            }
        },
    }
}

/// Sign facts about a product, used to pick the saturation direction.
proof fn lemma_mul_sign(a: int, b: int)
    ensures
        a > 0 && b > 0 ==> a * b > 0,
        a < 0 && b < 0 ==> a * b > 0,
        a > 0 && b < 0 ==> a * b < 0,
        a < 0 && b > 0 ==> a * b < 0,
        a == 0 || b == 0 ==> a * b == 0,
{
    assert(a > 0 && b > 0 ==> a * b > 0) by (nonlinear_arith);
    assert(a < 0 && b < 0 ==> a * b > 0) by (nonlinear_arith);
    assert(a > 0 && b < 0 ==> a * b < 0) by (nonlinear_arith);
    assert(a < 0 && b > 0 ==> a * b < 0) by (nonlinear_arith);
    assert(a == 0 || b == 0 ==> a * b == 0) by (nonlinear_arith);
}

} // verus!
