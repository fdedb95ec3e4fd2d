//! Fixed-point scalar arithmetic.
//!
//! A fixed-point number is an `i64` holding a real value scaled by `FX_ONE`,
//! so `FX_ONE` itself stands for 1.0. Every operation saturates at
//! `±FX_MAX` and rounds quotients toward zero, which keeps all of them
//! total: no operation overflows, panics, or divides by zero.

use vstd::prelude::*;

verus! {

/// The scale factor: the fixed-point representation of 1.0.
pub const FX_ONE: i64 = 65536;

/// Largest magnitude a fixed-point value may take; arithmetic saturates here.
pub const FX_MAX: i64 = 140737488355327;

/// 0.5 in fixed point.
pub const FX_HALF: i64 = 32768;

/// 2.0 in fixed point.
pub const FX_TWO: i64 = 131072;

/// 4.0 in fixed point.
pub const FX_FOUR: i64 = 262144;

/// Magnitude of an integer.
pub open spec fn fx_abs(a: int) -> int {
    if a >= 0 {
        a
    } else {
        -a
    }
}

/// Quotient rounded toward zero, the rounding the executable ops use.
/// Unspecified operand signs are handled by dividing the magnitudes.
pub open spec fn fx_tdiv(a: int, b: int) -> int {
    let q = fx_abs(a) / fx_abs(b);
    if (a >= 0) == (b >= 0) {
        q
    } else {
        -q
    }
}

/// Saturation to the representable fixed-point window.
pub open spec fn fx_clip(a: int) -> int {
    if a > FX_MAX {
        FX_MAX as int
    } else if a < -FX_MAX {
        -(FX_MAX as int)
    } else {
        a
    }
}

/// A value lies in the representable fixed-point window.
pub open spec fn fx_ok(a: int) -> bool {
    -FX_MAX <= a <= FX_MAX
}

/// What `fx_add` returns.
pub open spec fn fx_add_val(a: int, b: int) -> int {
    fx_clip(a + b)
}

/// What `fx_sub` returns.
pub open spec fn fx_sub_val(a: int, b: int) -> int {
    fx_clip(a - b)
}

/// What `fx_neg` returns.
pub open spec fn fx_neg_val(a: int) -> int {
    fx_clip(-a)
}

/// What `fx_mul` returns: the scaled product, rounded toward zero.
pub open spec fn fx_mul_val(a: int, b: int) -> int {
    fx_clip(fx_tdiv(a * b, FX_ONE as int))
}

/// What `fx_div` returns: the scaled quotient, rounded toward zero;
/// a zero divisor yields zero.
pub open spec fn fx_div_val(a: int, b: int) -> int {
    if b == 0 {
        0
    } else {
        fx_clip(fx_tdiv(a * FX_ONE, b))
    }
}

/// Floor of the square root of a nonnegative integer (zero below zero).
pub open spec fn sqrt_floor(n: int) -> int
    decreases n,
{
    if n < 1 {
        0
    } else {
        let h = sqrt_floor(n / 4);
        if (2 * h + 1) * (2 * h + 1) <= n {
            2 * h + 1
        } else {
            2 * h
        }
    }
}

/// What `fx_sqrt` returns: the square root of a nonnegative fixed-point
/// value, rounded down to the nearest representable value; nonpositive
/// inputs yield zero.
pub open spec fn fx_sqrt_val(a: int) -> int {
    if a <= 0 {
        0
    } else {
        sqrt_floor(a * FX_ONE)
    }
}

/// `sqrt_floor` is characterized by the usual bracketing inequalities.
pub proof fn lemma_sqrt_floor_bounds(n: int)
    requires
        n >= 0,
    ensures
        0 <= sqrt_floor(n),
        sqrt_floor(n) * sqrt_floor(n) <= n,
        n < (sqrt_floor(n) + 1) * (sqrt_floor(n) + 1),
    decreases n,
{
    if n < 1 {
        assert(sqrt_floor(n) == 0);
        assert(n < (sqrt_floor(n) + 1) * (sqrt_floor(n) + 1)) by (nonlinear_arith)
            requires
                0 <= n < 1,
                sqrt_floor(n) == 0,
        ;
    } else {
        let m = n / 4;
        lemma_sqrt_floor_bounds(m);
        let h = sqrt_floor(m);
        assert(4 * m <= n && n <= 4 * m + 3);
        if (2 * h + 1) * (2 * h + 1) <= n {
            assert(sqrt_floor(n) == 2 * h + 1);
            assert(n < (2 * h + 2) * (2 * h + 2)) by (nonlinear_arith)
                requires
                    m < (h + 1) * (h + 1),
                    4 * m <= n && n <= 4 * m + 3,
            ;
        } else {
            assert(sqrt_floor(n) == 2 * h);
            assert((2 * h) * (2 * h) <= n) by (nonlinear_arith)
                requires
                    h * h <= m,
                    4 * m <= n,
            ;
        }
    }
}

/// Any value meeting the bracketing inequalities is `sqrt_floor`.
pub proof fn lemma_sqrt_floor_is(n: int, r: int)
    requires
        n >= 0,
        r >= 0,
        r * r <= n,
        n < (r + 1) * (r + 1),
    ensures
        r == sqrt_floor(n),
{
    lemma_sqrt_floor_bounds(n);
    let s = sqrt_floor(n);
    assert(r == s) by (nonlinear_arith)
        requires
            r >= 0,
            s >= 0,
            r * r <= n,
            n < (r + 1) * (r + 1),
            s * s <= n,
            n < (s + 1) * (s + 1),
    ;
}

/// Saturation keeps order.
pub proof fn lemma_fx_clip_monotone(a: int, b: int)
    requires
        a <= b,
    ensures
        fx_clip(a) <= fx_clip(b),
{
}

/// Scaling a nonnegative value by a larger nonnegative factor never
/// shrinks the scaled product.
pub proof fn lemma_fx_mul_monotone(a: int, b1: int, b2: int)
    requires
        0 <= a,
        0 <= b1 <= b2,
    ensures
        0 <= fx_mul_val(a, b1) <= fx_mul_val(a, b2),
{
    assert(0 <= a * b1 <= a * b2) by (nonlinear_arith)
        requires
            0 <= a,
            0 <= b1 <= b2,
    ;
    assert(a * b1 / (FX_ONE as int) <= a * b2 / (FX_ONE as int)) by (nonlinear_arith)
        requires
            0 <= a * b1 <= a * b2,
    ;
    lemma_fx_clip_monotone(fx_tdiv(a * b1, FX_ONE as int), fx_tdiv(a * b2, FX_ONE as int));
}

/// For a nonnegative numerator, truncation toward zero is plain floor
/// division.
pub proof fn lemma_tdiv_nonneg(a: int, b: int)
    requires
        a >= 0,
        b > 0,
    ensures
        fx_tdiv(a, b) == a / b,
{
}

/// Dividing a multiple of the scale by the scale returns the factor.
pub proof fn lemma_tdiv_scale_cancel(k: int)
    ensures
        fx_tdiv(k * FX_ONE, FX_ONE as int) == k,
{
    vstd::arithmetic::div_mod::lemma_div_multiples_vanish(fx_abs(k), FX_ONE as int);
    assert(fx_abs(k * FX_ONE) == fx_abs(k) * FX_ONE) by (nonlinear_arith);
    assert((k * FX_ONE >= 0) == (k >= 0)) by (nonlinear_arith);
    assert((FX_ONE as int) * fx_abs(k) == fx_abs(k) * FX_ONE);
}

/// The product spec is symmetric in its arguments.
pub proof fn lemma_fx_mul_val_comm(a: int, b: int)
    ensures
        fx_mul_val(a, b) == fx_mul_val(b, a),
{
    assert(a * b == b * a);
}

/// Multiplying by a whole number (given scaled) is exact up to
/// saturation: no precision is lost to the scale division.
pub proof fn lemma_fx_mul_val_scaled(m: int, v: int)
    ensures
        fx_mul_val(m * FX_ONE, v) == fx_clip(m * v),
{
    assert((m * FX_ONE) * v == (m * v) * FX_ONE) by (nonlinear_arith);
    lemma_tdiv_scale_cancel(m * v);
}

/// Magnitude of an `i64`, widened so that `i64::MIN` needs no special case.
fn abs_to_u128(a: i64) -> (r: u128)
    ensures
        r == fx_abs(a as int),
{
    if a >= 0 {
        a as u128
    } else {
        let w: i128 = -(a as i128);
        w as u128
    }
}

/// Narrow a nonnegative magnitude, already saturated to the fixed-point
/// window, back to `i64` with the requested sign.
fn apply_sign(q: u128, neg: bool) -> (r: i64)
    requires
        q <= FX_MAX,
    ensures
        r == if neg {
            -(q as int)
        } else {
            q as int
        },
{
    let w: i64 = q as i64;
    if neg {
        -w
    } else {
        w
    }
}

/// Saturating fixed-point addition.
pub fn fx_add(a: i64, b: i64) -> (r: i64)
    ensures
        r == fx_add_val(a as int, b as int),
        fx_ok(r as int),
{
    let s: i128 = a as i128 + b as i128;
    if s > FX_MAX as i128 {
        FX_MAX
    } else if s < -(FX_MAX as i128) {
        -FX_MAX
    } else {
        s as i64
    }
}

/// Saturating fixed-point subtraction.
pub fn fx_sub(a: i64, b: i64) -> (r: i64)
    ensures
        r == fx_sub_val(a as int, b as int),
        fx_ok(r as int),
{
    let s: i128 = a as i128 - b as i128;
    if s > FX_MAX as i128 {
        FX_MAX
    } else if s < -(FX_MAX as i128) {
        -FX_MAX
    } else {
        s as i64
    }
}

/// Saturating fixed-point negation.
pub fn fx_neg(a: i64) -> (r: i64)
    ensures
        r == fx_neg_val(a as int),
        fx_ok(r as int),
{
    let s: i128 = -(a as i128);
    if s > FX_MAX as i128 {
        FX_MAX
    } else if s < -(FX_MAX as i128) {
        -FX_MAX
    } else {
        s as i64
    }
}

/// Saturating fixed-point multiplication, rounding toward zero.
pub fn fx_mul(a: i64, b: i64) -> (r: i64)
    ensures
        r == fx_mul_val(a as int, b as int),
        fx_ok(r as int),
{
    let neg: bool = (a < 0) != (b < 0);
    let ma = abs_to_u128(a);
    let mb = abs_to_u128(b);
    proof {
        assert(ma * mb <= 85070591730234615865843651857942052864u128) by (nonlinear_arith)
            requires
                ma <= 9223372036854775808u128,
                mb <= 9223372036854775808u128,
        ;
    }
    let p: u128 = ma * mb;
    let q: u128 = p / 65536;
    let qc: u128 = if q > 140737488355327u128 {
        140737488355327u128
    } else {
        q
    };
    proof {
        assert(fx_abs(a as int) * fx_abs(b as int) == fx_abs((a as int) * (b as int)))
            by (nonlinear_arith);
        assert((((a as int) < 0) != ((b as int) < 0)) ==> (a as int) * (b as int) <= 0)
            by (nonlinear_arith);
        assert((((a as int) < 0) == ((b as int) < 0)) ==> (a as int) * (b as int) >= 0)
            by (nonlinear_arith);
    }
    apply_sign(qc, neg)
}

/// Saturating fixed-point division, rounding toward zero; a zero divisor
/// yields zero.
pub fn fx_div(a: i64, b: i64) -> (r: i64)
    ensures
        r == fx_div_val(a as int, b as int),
        fx_ok(r as int),
{
    if b == 0 {
        return 0;
    }
    let neg: bool = (a < 0) != (b < 0);
    let ma = abs_to_u128(a);
    let mb = abs_to_u128(b);
    let p: u128 = ma * 65536;
    let q: u128 = p / mb;
    let qc: u128 = if q > 140737488355327u128 {
        140737488355327u128
    } else {
        q
    };
    proof {
        assert(fx_abs(a as int) * 65536 == fx_abs((a as int) * 65536)) by (nonlinear_arith);
        assert((((a as int) < 0) != ((b as int) < 0)) ==> ((a as int) * 65536 >= 0) != ((b as int)
            >= 0)) by (nonlinear_arith)
            requires
                b != 0,
        ;
        assert((((a as int) < 0) == ((b as int) < 0)) ==> ((a as int) * 65536 >= 0) == ((b as int)
            >= 0)) by (nonlinear_arith)
            requires
                b != 0,
        ;
    }
    apply_sign(qc, neg)
}

/// Floor square root of a wide natural number, by bisection.
fn isqrt_u128(n: u128) -> (r: u64)
    requires
        n < 1208925819614629174706176u128,
    ensures
        r == sqrt_floor(n as int),
{
    let mut lo: u64 = 0;
    let mut hi: u64 = 1099511627776;
    proof {
        assert((lo as int) * (lo as int) <= n as int);
        assert((n as int) < (hi as int) * (hi as int)) by (nonlinear_arith)
            requires
                n < 1208925819614629174706176u128,
                hi == 1099511627776u64,
        ;
    }
    while hi - lo > 1
        invariant
            lo < hi <= 1099511627776u64,
            (lo as int) * (lo as int) <= n as int,
            (n as int) < (hi as int) * (hi as int),
        decreases hi - lo,
    {
        let mid: u64 = lo + (hi - lo) / 2;
        proof {
            assert((mid as int) * (mid as int) <= 1208925819614629174706176int) by (nonlinear_arith)
                requires
                    mid <= 1099511627776u64,
            ;
        }
        let sq: u128 = (mid as u128) * (mid as u128);
        if sq <= n {
            lo = mid;
        } else {
            hi = mid;
        }
    }
    proof {
        lemma_sqrt_floor_is(n as int, lo as int);
    }
    lo
}

/// Fixed-point square root: rounds down, and maps nonpositive inputs to
/// zero rather than failing.
pub fn fx_sqrt(a: i64) -> (r: i64)
    ensures
        r == fx_sqrt_val(a as int),
        0 <= r <= FX_MAX,
{
    if a <= 0 {
        return 0;
    }
    let n: u128 = (a as u128) * 65536;
    let r: u64 = isqrt_u128(n);
    proof {
        lemma_sqrt_floor_bounds(n as int);
        assert(sqrt_floor(n as int) <= FX_MAX) by (nonlinear_arith)
            requires
                0 <= sqrt_floor(n as int),
                sqrt_floor(n as int) * sqrt_floor(n as int) <= n as int,
                n as int <= 604462909807314587353088,
        ;
    }
    r as i64
}

/// Pi in fixed point.
pub const FX_PI: i64 = 205887;

/// Half pi in fixed point.
pub const FX_HALF_PI: i64 = 102944;

/// A full turn in fixed point, exactly twice `FX_PI`.
pub const FX_TAU: i64 = 411774;

/// What `angle_mod` returns: the angle reduced to [0, FX_TAU).
pub open spec fn angle_mod_val(x: int) -> int {
    let m = x - fx_tdiv(x, FX_TAU as int) * FX_TAU;
    if m < 0 {
        m + FX_TAU
    } else {
        m
    }
}

/// Reduce an angle to one turn.
pub fn angle_mod(x: i64) -> (m: i64)
    ensures
        m == angle_mod_val(x as int),
        0 <= m < FX_TAU,
{
    let neg = x < 0;
    let mag = abs_to_u128(x);
    let qm: u128 = mag / 411774;
    let qi: i64 = if neg {
        -((qm as i64))
    } else {
        qm as i64
    };
    proof {
        vstd::arithmetic::div_mod::lemma_fundamental_div_mod(fx_abs(x as int), FX_TAU as int);
    }
    let m0: i128 = (x as i128) - (qi as i128) * 411774;
    let m1: i64 = m0 as i64;
    if m1 < 0 {
        m1 + 411774
    } else {
        m1
    }
}

/// The Bhaskara rational approximation of the sine on [0, FX_PI],
/// evaluated with the library's saturating fixed-point operations:
/// `16 x (pi - x) / (5 pi^2 - 4 x (pi - x))`.
pub open spec fn bhaskara_val(x: int) -> int {
    let p = fx_mul_val(x, FX_PI - x);
    let num = fx_mul_val(16 * FX_ONE, p);
    let den = fx_sub_val(
        fx_mul_val(5 * FX_ONE, fx_mul_val(FX_PI as int, FX_PI as int)),
        fx_mul_val(4 * FX_ONE, p),
    );
    fx_div_val(num, den)
}

fn bhaskara(x: i64) -> (r: i64)
    requires
        0 <= x <= FX_PI,
    ensures
        r == bhaskara_val(x as int),
        fx_ok(r as int),
{
    let p = fx_mul(x, fx_sub_plain(FX_PI, x));
    let num = fx_mul(1048576, p);
    let den = fx_sub(fx_mul(327680, fx_mul(FX_PI, FX_PI)), fx_mul(262144, p));
    fx_div(num, den)
}

/// Plain subtraction where both operands are small angles; kept separate
/// so `bhaskara_val`'s `FX_PI - x` is mirrored exactly.
fn fx_sub_plain(a: i64, b: i64) -> (r: i64)
    requires
        -4611686018427387904 <= a - b <= 4611686018427387904,
    ensures
        r == a - b,
{
    let d: i128 = (a as i128) - (b as i128);
    d as i64
}

/// What `fx_sin` returns: the Bhaskara approximation, extended to a full
/// turn by odd symmetry and to every angle by period reduction, clamped
/// to [-1, 1].
pub open spec fn fx_sin_val(x: int) -> int {
    let m = angle_mod_val(x);
    let s = if m < FX_PI {
        bhaskara_val(m)
    } else {
        -bhaskara_val(m - FX_PI)
    };
    if s > FX_ONE {
        FX_ONE as int
    } else if s < -FX_ONE {
        -(FX_ONE as int)
    } else {
        s
    }
}

/// What `fx_cos` returns: the sine a quarter turn ahead.
pub open spec fn fx_cos_val(x: int) -> int {
    fx_sin_val(fx_add_val(x, FX_HALF_PI as int))
}

/// Approximate sine of a fixed-point angle in radians, within [-1, 1].
pub fn fx_sin(x: i64) -> (r: i64)
    ensures
        r == fx_sin_val(x as int),
        -FX_ONE <= r <= FX_ONE,
{
    let m = angle_mod(x);
    let s: i64 = if m < FX_PI {
        bhaskara(m)
    } else {
        -bhaskara(m - FX_PI)
    };
    if s > FX_ONE {
        FX_ONE
    } else if s < -FX_ONE {
        -FX_ONE
    } else {
        s
    }
}

/// Approximate cosine of a fixed-point angle in radians, within [-1, 1].
pub fn fx_cos(x: i64) -> (r: i64)
    ensures
        r == fx_cos_val(x as int),
        -FX_ONE <= r <= FX_ONE,
{
    fx_sin(fx_add(x, FX_HALF_PI))
}

/// The fixed-point image of a small integer.
pub open spec fn fx_of_val(n: int) -> int {
    fx_clip(n * FX_ONE)
}

/// Convert an integer count (a pixel coordinate, an image width) to
/// fixed point, saturating.
pub fn fx_of_i64(n: i64) -> (r: i64)
    ensures
        r == fx_of_val(n as int),
        fx_ok(r as int),
{
    let s: i128 = (n as i128) * 65536;
    if s > FX_MAX as i128 {
        FX_MAX
    } else if s < -(FX_MAX as i128) {
        -FX_MAX
    } else {
        s as i64
    }
}

} // verus!
