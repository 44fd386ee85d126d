//! Fixed-point scalar arithmetic.
//!
//! Every scalar in the library is an `i128` counted in `1/SCALE` units.
//! Multiplication of two such scalars therefore divides the raw product by
//! `SCALE`, with truncation toward zero, and square roots act on the raw
//! value directly (the root of an `SCALE`-squared quantity is `SCALE`-scaled).

use vstd::prelude::*;
use vstd::arithmetic::div_mod::{
    lemma_div_is_ordered, lemma_div_nonincreasing, lemma_div_pos_is_pos,
};

verus! {

/// Number of fractional steps per unit: the value one is `SCALE` raw steps.
pub const SCALE: i128 = 65536;

/// Largest magnitude allowed for a world coordinate, in raw steps
/// (1024 whole units): the representable world is a cube of side 2048.
pub const MAXC: i128 = 1024 * 65536;

/// Magnitude cap on the arguments of the vector operations; large enough
/// for every intermediate value of the intersection math.
pub const VMAX: i128 = 281474976710656;

/// Magnitude cap on the arguments of the projection and rejection
/// operations (an eighth of `VMAX`).
pub const PVMAX: i128 = 35184372088832;

/// Magnitude cap on a unit-length vector's components with slack: twice
/// `SCALE`.
pub const UMAX: i128 = 131072;

/// Largest accepted ray parameter `t`: hits farther out than this are
/// treated as misses, far beyond any representable scene anyway.
pub const TMAX: i128 = 35184372088832;

/// Magnitude cap on raw products and on the input of the square root
/// (two to the power 120), far below the `i128` range.
pub const FXMAX: i128 = 1329227995784915872903807060280344576;

/// Truncated (round-toward-zero) division: the semantics of `/` on Rust's
/// signed integers, while `/` on spec-level `int` is Euclidean.
pub open spec fn tdiv(x: int, d: int) -> int
    recommends
        d != 0,
{
    if x == 0 {
        0
    } else if x > 0 && d > 0 {
        x / d
    } else if x < 0 && d < 0 {
        (x * -1) / (d * -1)
    } else if x < 0 {
        ((x * -1) / d) * -1
    } else {
        (x / (d * -1)) * -1
    }
}

/// The quotient is never larger in magnitude than the dividend.
pub proof fn lemma_tdiv_abs(x: int, d: int, b: int)
    requires
        d != 0,
        0 <= b,
        -b <= x && x <= b,
    ensures
        -b <= tdiv(x, d) && tdiv(x, d) <= b,
{
    let ax: int = if x >= 0 { x } else { -x };
    let ad: int = if d >= 0 { d } else { -d };
    lemma_div_pos_is_pos(ax, ad);
    lemma_div_nonincreasing(ax, ad);
}

/// Dividing by a positive `d` shrinks any bound `b` to `b / d`.
pub proof fn lemma_tdiv_quotient_abs(x: int, d: int, b: int)
    requires
        1 <= d,
        0 <= b,
        -b <= x && x <= b,
    ensures
        -(b / d) <= tdiv(x, d) && tdiv(x, d) <= b / d,
{
    let ax: int = if x >= 0 { x } else { -x };
    lemma_div_pos_is_pos(ax, d);
    lemma_div_is_ordered(ax, b, d);
    lemma_div_pos_is_pos(b, d);
}

/// Truncated division of a non-negative value is non-negative, and of a
/// non-positive value non-positive (positive divisor).
pub proof fn lemma_tdiv_sign(x: int, d: int)
    requires
        1 <= d,
    ensures
        x >= 0 ==> tdiv(x, d) >= 0,
        x <= 0 ==> tdiv(x, d) <= 0,
{
    if x >= 0 {
        lemma_div_pos_is_pos(x, d);
    } else {
        lemma_div_pos_is_pos(-x, d);
    }
}

/// Magnitude bound on a product from bounds on its factors.
pub proof fn lemma_mul_abs(x: int, y: int, bx: int, by: int)
    requires
        -bx <= x && x <= bx,
        -by <= y && y <= by,
        0 <= bx,
        0 <= by,
    ensures
        -(bx * by) <= x * y && x * y <= bx * by,
{
    assert(-(bx * by) <= x * y && x * y <= bx * by) by (nonlinear_arith)
        requires
            -bx <= x && x <= bx,
            -by <= y && y <= by,
            0 <= bx,
            0 <= by,
    ;
}

/// Truncated division, exactly as Rust's `/` computes it on `i128`.
pub fn divi(a: i128, b: i128) -> (r: i128)
    requires
        b != 0,
        -FXMAX <= a && a <= FXMAX,
    ensures
        r == tdiv(a as int, b as int),
{
    proof {
        lemma_tdiv_abs(a as int, b as int, FXMAX as int);
    }
    let q = a.checked_div(b);
    q.unwrap()
}

/// Fixed-point product: `(a * b) / SCALE`, truncated toward zero.
pub fn mul_fx(a: i128, b: i128) -> (r: i128)
    requires
        -FXMAX <= a * b && a * b <= FXMAX,
    ensures
        r == tdiv(a * b, SCALE as int),
{
    let p: i128 = a * b;
    divi(p, SCALE)
}

/// `r` is the integer square root of `n`.
pub open spec fn is_sqrt(n: int, r: int) -> bool {
    0 <= r && r * r <= n && n < (r + 1) * (r + 1)
}

/// The integer square root, as the unique root the executable code returns.
pub open spec fn sqrt_s(n: int) -> int {
    choose|r: int| is_sqrt(n, r)
}

/// The integer square root is unique.
pub proof fn lemma_sqrt_s(n: int, r: int)
    requires
        is_sqrt(n, r),
    ensures
        sqrt_s(n) == r,
{
    assert(exists|x: int| is_sqrt(n, x)) by {
        assert(is_sqrt(n, r));
    }
    let r2 = sqrt_s(n);
    assert(r == r2) by (nonlinear_arith)
        requires
            is_sqrt(n, r),
            is_sqrt(n, r2),
    ;
}

/// Integer square root by bisection.
pub fn isqrt(n: i128) -> (r: i128)
    requires
        0 <= n && n <= FXMAX,
    ensures
        is_sqrt(n as int, r as int),
        r == sqrt_s(n as int),
        0 <= r,
{
    let mut lo: i128 = 0;
    let mut hi: i128 = 2305843009213693952;
    while lo + 1 < hi
        invariant
            0 <= lo < hi <= 2305843009213693952,
            lo * lo <= n,
            n < hi * hi,
            0 <= n <= FXMAX,
        decreases hi - lo,
    {
        let mid: i128 = lo + divi(hi - lo, 2);
        proof {
            lemma_tdiv_quotient_abs((hi - lo) as int, 2, (hi - lo) as int);
            lemma_tdiv_sign((hi - lo) as int, 2);
            assert(tdiv((hi - lo) as int, 2) >= 1);
            lemma_mul_abs(mid as int, mid as int, hi as int, hi as int);
            lemma_mul_abs(hi as int, hi as int, 2305843009213693952, 2305843009213693952);
        }
        if mid * mid <= n {
            lo = mid;
        } else {
            hi = mid;
        }
    }
    proof {
        lemma_sqrt_s(n as int, lo as int);
    }
    lo
}

/// A root of a value at most `FXMAX` is at most two to the power 60.
pub proof fn lemma_sqrt_le(n: int, r: int)
    requires
        is_sqrt(n, r),
        n <= FXMAX,
    ensures
        r <= 1152921504606846976,
{
    assert(r <= 1152921504606846976) by (nonlinear_arith)
        requires
            0 <= r,
            r * r <= n,
            n <= 1329227995784915872903807060280344576,
    ;
}

/// Fixed-point power with a whole-number exponent: `b` to the `e`, where
/// `b` lies in `[0, 1]` of real value, so the result does too.
pub open spec fn pow_fx_s(b: int, e: nat) -> int
    decreases e,
{
    if e == 0 {
        SCALE as int
    } else {
        tdiv(b * pow_fx_s(b, (e - 1) as nat), SCALE as int)
    }
}

/// Executable fixed-point power (repeated fixed-point products).
pub fn pow_fx(b: i128, e: u32) -> (r: i128)
    requires
        0 <= b && b <= SCALE,
    ensures
        r == pow_fx_s(b as int, e as nat),
        0 <= r && r <= SCALE,
{
    let mut acc: i128 = SCALE;
    let mut i: u32 = 0;
    while i < e
        invariant
            0 <= b && b <= SCALE,
            0 <= acc && acc <= SCALE,
            acc == pow_fx_s(b as int, i as nat),
            i <= e,
        decreases e - i,
    {
        proof {
            lemma_mul_abs(b as int, acc as int, SCALE as int, SCALE as int);
            lemma_tdiv_quotient_abs(b * acc, SCALE as int, (SCALE * SCALE) as int);
            lemma_tdiv_sign(b * acc, SCALE as int);
            assert(b * acc >= 0) by (nonlinear_arith)
                requires
                    b >= 0,
                    acc >= 0,
            ;
        }
        acc = mul_fx(b, acc);
        i = i + 1;
    }
    acc
}

/// One colour channel as a byte: negative light is black, anything at or
/// above one is full brightness, between them the channel scales linearly.
pub open spec fn byte_s(c: int) -> int {
    if c <= 0 {
        0
    } else if c >= SCALE {
        255
    } else {
        tdiv(c * 255, SCALE as int)
    }
}

/// A channel byte always lies in `[0, 255]`: saturation, never wrap-around.
pub proof fn lemma_byte_s_range(c: int)
    ensures
        0 <= byte_s(c) && byte_s(c) <= 255,
{
    if 0 < c && c < SCALE {
        lemma_mul_abs(c, 255, SCALE - 1, 255);
        lemma_tdiv_quotient_abs(c * 255, SCALE as int, (SCALE - 1) * 255);
        lemma_tdiv_sign(c * 255, SCALE as int);
        assert(c * 255 >= 0) by (nonlinear_arith)
            requires
                c >= 0,
        ;
    }
}

/// Light above full brightness saturates the byte at 255: accumulation
/// can never wrap or overflow the channel.
pub proof fn lemma_byte_saturates(c: int)
    requires
        c >= SCALE,
    ensures
        byte_s(c) == 255,
{
}

/// Executable channel conversion.
pub fn channel_byte(c: i128) -> (r: u8)
    requires
        -FXMAX <= c && c <= FXMAX,
    ensures
        r == byte_s(c as int),
{
    proof {
        lemma_byte_s_range(c as int);
    }
    if c <= 0 {
        0
    } else if c >= SCALE {
        255
    } else {
        proof {
            lemma_mul_abs(c as int, 255, (SCALE - 1) as int, 255);
        }
        let raw: i128 = divi(c * 255, SCALE);
        proof {
            lemma_tdiv_quotient_abs((c * 255) as int, SCALE as int, ((SCALE - 1) * 255) as int);
            lemma_tdiv_sign((c * 255) as int, SCALE as int);
        }
        raw as u8
    }
}

} // verus!
