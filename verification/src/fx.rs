//! Fixed-point scalar arithmetic.
//!
//! A coordinate `v` is carried as the integer `v * SCALE` in an `i64`.
//! Products are computed in `i128`, rescaled by a truncating division, and
//! clamped back into the `i64` range, so every operation is total: no input
//! can overflow or panic.  Each executable operation returns exactly the
//! value of its `spec` counterpart.

use vstd::prelude::*;

verus! {

/// Number of fixed-point units per 1.0; a value `v` is stored as `v * SCALE`.
pub const SCALE: i64 = 65536;

/// Truncating (round-toward-zero) division by a positive divisor.
pub open spec fn div_t(n: int, d: int) -> int
    recommends
        d > 0,
{
    if n >= 0 {
        n / d
    } else {
        -((-n) / d)
    }
}

/// Clamp an unbounded integer into the `i64` range.
pub open spec fn sat64(v: int) -> int {
    if v > i64::MAX {
        i64::MAX as int
    } else if v < i64::MIN {
        i64::MIN as int
    } else {
        v
    }
}

/// One fixed-point product term before clamping: (a*b)/SCALE, toward zero.
pub open spec fn fxm(a: int, b: int) -> int {
    div_t(a * b, SCALE as int)
}

/// A fixed-point product, clamped into the `i64` range.
pub open spec fn fxmul_s(a: int, b: int) -> int {
    sat64(fxm(a, b))
}

/// A fixed-point quotient a/b (b > 0), clamped into the `i64` range.
pub open spec fn fxdiv_s(a: int, b: int) -> int
    recommends
        b > 0,
{
    sat64(div_t(a * (SCALE as int), b))
}

/// A clamped sum.
pub open spec fn satadd_s(a: int, b: int) -> int {
    sat64(a + b)
}

/// A clamped difference.
pub open spec fn satsub_s(a: int, b: int) -> int {
    sat64(a - b)
}

/// Floor of the square root, by the halving recursion
/// sqrt(n) ∈ { 2*sqrt(n/4), 2*sqrt(n/4)+1 }.
pub open spec fn sqrt_f(n: nat) -> nat
    decreases n,
{
    if n == 0 {
        0
    } else {
        let h = sqrt_f((n / 4) as nat);
        if (2 * h + 1) * (2 * h + 1) <= n {
            (2 * h + 1) as nat
        } else {
            (2 * h) as nat
        }
    }
}

/// `sqrt_f` is the floor of the exact square root.
pub proof fn lemma_sqrt_f(n: nat)
    ensures
        sqrt_f(n) * sqrt_f(n) <= n,
        n < (sqrt_f(n) + 1) * (sqrt_f(n) + 1),
    decreases n,
{
    if n == 0 {
        assert(sqrt_f(n) == 0);
        assert((sqrt_f(n) + 1) * (sqrt_f(n) + 1) == 1) by (nonlinear_arith)
            requires
                sqrt_f(n) == 0,
        ;
    } else {
        let q = (n / 4) as nat;
        let h = sqrt_f(q);
        lemma_sqrt_f(q);
        vstd::arithmetic::div_mod::lemma_fundamental_div_mod(n as int, 4);
        assert(4 * q <= n && n < 4 * q + 4);
        let r = sqrt_f(n);
        if (2 * h + 1) * (2 * h + 1) <= n {
            assert(r == 2 * h + 1);
            assert(r * r <= n) by (nonlinear_arith)
                requires
                    r == 2 * h + 1,
                    (2 * h + 1) * (2 * h + 1) <= n,
            ;
            assert(n < (r + 1) * (r + 1)) by (nonlinear_arith)
                requires
                    r == 2 * h + 1,
                    q < (h + 1) * (h + 1),
                    n < 4 * q + 4,
            ;
        } else {
            assert(r == 2 * h);
            assert(r * r <= n) by (nonlinear_arith)
                requires
                    r == 2 * h,
                    h * h <= q,
                    4 * q <= n,
            ;
            assert(n < (r + 1) * (r + 1)) by (nonlinear_arith)
                requires
                    r == 2 * h,
                    n < (2 * h + 1) * (2 * h + 1),
            ;
        }
        assert(sqrt_f(n) * sqrt_f(n) <= n);
        assert(n < (sqrt_f(n) + 1) * (sqrt_f(n) + 1));
    }
}

/// A product term with a zero factor is zero.
pub proof fn lemma_fxm_zero(a: int)
    ensures
        fxm(0, a) == 0,
        fxm(a, 0) == 0,
{
    assert(0 * a == 0) by (nonlinear_arith);
    assert(a * 0 == 0) by (nonlinear_arith);
    vstd::arithmetic::div_mod::lemma_div_of0(SCALE as int);
}

/// Multiplying by the fixed-point unit (or its negation) is exact.
pub proof fn lemma_fxm_unit(a: int)
    ensures
        fxm(SCALE as int, a) == a,
        fxm(a, SCALE as int) == a,
        fxm(-(SCALE as int), a) == -a,
        fxm(a, -(SCALE as int)) == -a,
{
    let s = SCALE as int;
    assert(s * a == a * s) by (nonlinear_arith);
    assert((-s) * a == -(s * a)) by (nonlinear_arith);
    assert(a * (-s) == -(s * a)) by (nonlinear_arith);
    vstd::arithmetic::div_mod::lemma_div_multiples_vanish(a, s);
    vstd::arithmetic::div_mod::lemma_div_multiples_vanish(-a, s);
    assert(s * (-a) == -(s * a)) by (nonlinear_arith);
}

/// Negating one factor negates the rescaled product exactly.
pub proof fn lemma_fxm_neg(a: int, b: int)
    ensures
        fxm(-a, b) == -fxm(a, b),
        fxm(a, -b) == -fxm(a, b),
{
    assert((-a) * b == -(a * b)) by (nonlinear_arith);
    assert(a * (-b) == -(a * b)) by (nonlinear_arith);
}

/// Truncating division is an odd function of the dividend.
pub proof fn lemma_div_t_odd(n: int, d: int)
    requires
        d > 0,
    ensures
        div_t(-n, d) == -div_t(n, d),
{
    if n == 0 {
        vstd::arithmetic::div_mod::lemma_div_of0(d);
    }
}

/// The magnitude of a truncating quotient never exceeds the dividend's.
pub proof fn lemma_div_t_abs_le(n: int, d: int)
    requires
        d > 0,
    ensures
        n >= 0 ==> 0 <= div_t(n, d) <= n,
        n < 0 ==> n <= div_t(n, d) <= 0,
{
    if n >= 0 {
        vstd::arithmetic::div_mod::lemma_div_nonincreasing(n, d);
        vstd::arithmetic::div_mod::lemma_div_pos_is_pos(n, d);
    } else {
        vstd::arithmetic::div_mod::lemma_div_nonincreasing(-n, d);
        vstd::arithmetic::div_mod::lemma_div_pos_is_pos(-n, d);
    }
}

/// The floor square root of a perfect square.
pub proof fn lemma_sqrt_square(v: nat)
    ensures
        sqrt_f(v * v) == v,
{
    lemma_sqrt_f(v * v);
    let r = sqrt_f(v * v);
    assert(r == v) by (nonlinear_arith)
        requires
            r * r <= v * v,
            v * v < (r + 1) * (r + 1),
            r >= 0,
            v >= 0,
    ;
}

/// Narrow an `i128` to an `i64`, clamping at the ends.
pub fn sat_narrow(v: i128) -> (r: i64)
    ensures
        r as int == sat64(v as int),
{
    if v > i64::MAX as i128 {
        i64::MAX
    } else if v < i64::MIN as i128 {
        i64::MIN
    } else {
        v as i64
    }
}

/// Truncating division of an `i128` by a positive divisor.
pub fn div_i128(n: i128, d: i128) -> (r: i128)
    requires
        d > 0,
    ensures
        r as int == div_t(n as int, d as int),
{
    proof {
        // The quotient never exceeds the dividend in magnitude, so
        // checked_div cannot overflow for a positive divisor.
        if n >= 0 {
            vstd::arithmetic::div_mod::lemma_div_nonincreasing(n as int, d as int);
        } else {
            vstd::arithmetic::div_mod::lemma_div_nonincreasing(-(n as int), d as int);
        }
    }
    n.checked_div(d).unwrap()
}

/// Fixed-point product of two scalars.
pub fn fx_mul(a: i64, b: i64) -> (r: i64)
    ensures
        r as int == fxmul_s(a as int, b as int),
{
    proof {
        lemma_i64_product_fits(a as int, b as int);
    }
    let p: i128 = (a as i128) * (b as i128);
    let q = div_i128(p, SCALE as i128);
    sat_narrow(q)
}

/// Fixed-point quotient of two scalars; the divisor must be positive.
pub fn fx_div(a: i64, b: i64) -> (r: i64)
    requires
        b > 0,
    ensures
        r as int == fxdiv_s(a as int, b as int),
{
    proof {
        lemma_i64_product_fits(a as int, SCALE as int);
    }
    let p: i128 = (a as i128) * (SCALE as i128);
    let q = div_i128(p, b as i128);
    sat_narrow(q)
}

/// Clamped sum of two scalars.
pub fn sat_add(a: i64, b: i64) -> (r: i64)
    ensures
        r as int == satadd_s(a as int, b as int),
{
    sat_narrow((a as i128) + (b as i128))
}

/// Clamped difference of two scalars.
pub fn sat_sub(a: i64, b: i64) -> (r: i64)
    ensures
        r as int == satsub_s(a as int, b as int),
{
    sat_narrow((a as i128) - (b as i128))
}

/// The product of two `i64` values fits in an `i128`.
pub proof fn lemma_i64_product_fits(a: int, b: int)
    requires
        i64::MIN <= a <= i64::MAX,
        i64::MIN <= b <= i64::MAX,
    ensures
        i128::MIN <= a * b <= i128::MAX,
{
    assert(i128::MIN <= a * b <= i128::MAX) by (nonlinear_arith)
        requires
            -0x8000_0000_0000_0000 <= a <= 0x7fff_ffff_ffff_ffff,
            -0x8000_0000_0000_0000 <= b <= 0x7fff_ffff_ffff_ffff,
    ;
}

/// Integer square root: the floor of the square root of `n`.
pub fn isqrt_u128(n: u128) -> (r: u128)
    ensures
        r as nat == sqrt_f(n as nat),
    decreases n,
{
    if n == 0 {
        0
    } else {
        let h = isqrt_u128(n / 4);
        proof {
            lemma_sqrt_f((n / 4) as nat);
            assert(h < 0x8000_0000_0000_0000u128) by (nonlinear_arith)
                requires
                    (h as nat) * (h as nat) <= n as nat / 4,
                    n as nat / 4 < 0x4000_0000_0000_0000_0000_0000_0000_0000nat,
            ;
        }
        let c: u128 = 2 * h + 1;
        match c.checked_mul(c) {
            Some(sq) => {
                if sq <= n {
                    c
                } else {
                    2 * h
                }
            },
            None => 2 * h,
        }
    }
}

} // verus!
