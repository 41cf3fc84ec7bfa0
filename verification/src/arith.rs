//! Integer helpers shared by the stick and pulse arithmetic.

use vstd::prelude::*;

verus! {

/// `x` limited to the closed range `lo..=hi` (assuming `lo <= hi`).
pub open spec fn clamp_int(x: int, lo: int, hi: int) -> int {
    if x < lo {
        lo
    } else if x > hi {
        hi
    } else {
        x
    }
}

/// Absolute value of a mathematical integer.
pub open spec fn abs_int(x: int) -> int {
    if x < 0 {
        -x
    } else {
        x
    }
}

/// Integer division rounding toward zero, as Rust's `/` on signed integers does.
pub open spec fn div_toward_zero(a: int, b: int) -> int
    recommends
        b > 0,
{
    if a >= 0 {
        a / b
    } else {
        -((-a) / b)
    }
}

/// `x` limited to `lo..=hi`, as `i8::clamp` computes it.
pub fn clamp_i8(x: i8, lo: i8, hi: i8) -> (r: i8)
    requires
        lo <= hi,
    ensures
        r == clamp_int(x as int, lo as int, hi as int),
{
    if x < lo {
        lo
    } else if x > hi {
        hi
    } else {
        x
    }
}

/// `x` limited to `lo..=hi`, as `i32::clamp` computes it.
pub fn clamp_i32(x: i32, lo: i32, hi: i32) -> (r: i32)
    requires
        lo <= hi,
    ensures
        r == clamp_int(x as int, lo as int, hi as int),
{
    if x < lo {
        lo
    } else if x > hi {
        hi
    } else {
        x
    }
}

/// `x` limited to `lo..=hi`, as `u32::clamp` computes it.
pub fn clamp_u32(x: u32, lo: u32, hi: u32) -> (r: u32)
    requires
        lo <= hi,
    ensures
        r == clamp_int(x as int, lo as int, hi as int),
{
    if x < lo {
        lo
    } else if x > hi {
        hi
    } else {
        x
    }
}

/// Dividing by a positive divisor keeps the order of the dividends, also when
/// rounding toward zero.
pub proof fn lemma_div_toward_zero_monotone(a: int, b: int, d: int)
    requires
        a <= b,
        d > 0,
    ensures
        div_toward_zero(a, d) <= div_toward_zero(b, d),
{
    if a >= 0 {
        vstd::arithmetic::div_mod::lemma_div_is_ordered(a, b, d);
    } else if b >= 0 {
        vstd::arithmetic::div_mod::lemma_div_pos_is_pos(-a, d);
        vstd::arithmetic::div_mod::lemma_div_pos_is_pos(b, d);
    } else {
        vstd::arithmetic::div_mod::lemma_div_is_ordered(-b, -a, d);
    }
}

/// Rounding toward zero is symmetric about zero.
pub proof fn lemma_div_toward_zero_neg(a: int, d: int)
    requires
        d > 0,
    ensures
        div_toward_zero(-a, d) == -div_toward_zero(a, d),
{
    if a == 0 {
        assert(0int / d == 0) by (nonlinear_arith)
            requires
                d > 0,
        ;
    }
}

/// The quotient of a dividend in `0..=100 * span` by 100 lies in `0..=span`.
pub proof fn lemma_scaled_share(s: int, span: int)
    requires
        0 <= s <= 100,
        0 <= span,
    ensures
        0 <= s * span,
        s * span <= 100 * span,
        0 <= (s * span) / 100 <= span,
{
    assert(0 <= s * span <= 100 * span) by (nonlinear_arith)
        requires
            0 <= s <= 100,
            0 <= span,
    ;
    vstd::arithmetic::div_mod::lemma_div_is_ordered(s * span, 100 * span, 100);
    vstd::arithmetic::div_mod::lemma_div_pos_is_pos(s * span, 100);
    assert((100 * span) / 100 == span) by (nonlinear_arith);
}

} // verus!
