//! Fixed-point quantities.
//!
//! Every length, angle, velocity, mass and gain of this crate is an integer that counts
//! thousandths of its unit: `1500` is a metre and a half, `-45_000` is minus forty-five
//! degrees. Angles are in degrees throughout. What a caller hands in is an `i32`; what is
//! computed from it, and could be too large for an `i32`, is handed back as an `i64`. So no
//! sum or product of inputs can leave the machine range, and the functions of this crate
//! ask nothing of their inputs, but for one: [`div_toward_zero`] asks for a positive
//! divisor. Where a quotient is not whole it is rounded toward zero, which keeps every
//! formula symmetric under a change of sign.

use vstd::prelude::*;

verus! {

/// Thousandths in one whole unit.
pub const SCALE: i64 = 1000;

/// The quotient of `n` by a positive `d`, rounded toward zero.
pub open spec fn trunc_div(n: int, d: int) -> int
    recommends
        d > 0,
{
    if n >= 0 {
        n / d
    } else {
        -((-n) / d)
    }
}

/// Half of `v`, rounded toward zero.
pub open spec fn half(v: int) -> int {
    trunc_div(v, 2)
}

/// `v` on the right-hand side of the car, `-v` on its left-hand side.
pub open spec fn mirrored(is_left: bool, v: int) -> int {
    if is_left {
        -v
    } else {
        v
    }
}

/// Rounding toward zero commutes with a change of sign.
pub proof fn lemma_trunc_div_odd(n: int, d: int)
    requires
        d > 0,
    ensures
        trunc_div(-n, d) == -trunc_div(n, d),
{
    if n == 0 {
        vstd::arithmetic::div_mod::lemma_div_basics(d);
    }
}

/// The rounded quotient times the divisor lies between zero and the dividend, less than one
/// divisor away from the dividend.
pub proof fn lemma_trunc_div_bounds(n: int, d: int)
    requires
        d > 0,
    ensures
        n >= 0 ==> n - d < trunc_div(n, d) * d <= n,
        n <= 0 ==> n <= trunc_div(n, d) * d < n + d,
{
    if n >= 0 {
        vstd::arithmetic::div_mod::lemma_fundamental_div_mod(n, d);
        vstd::arithmetic::div_mod::lemma_mod_bound(n, d);
        assert(d * (n / d) == (n / d) * d) by (nonlinear_arith);
    } else {
        let m = -n;
        vstd::arithmetic::div_mod::lemma_fundamental_div_mod(m, d);
        vstd::arithmetic::div_mod::lemma_mod_bound(m, d);
        assert(d * (m / d) == (m / d) * d) by (nonlinear_arith);
        assert((-(m / d)) * d == -((m / d) * d)) by (nonlinear_arith);
    }
}

/// A dividend between zero and `k` divisors has a quotient between zero and `k`.
pub proof fn lemma_trunc_div_range(n: int, d: int, k: int)
    requires
        d > 0,
        0 <= n <= k * d,
    ensures
        0 <= trunc_div(n, d) <= k,
{
    lemma_trunc_div_bounds(n, d);
    let q = trunc_div(n, d);
    assert(q >= 0) by (nonlinear_arith)
        requires
            q * d > n - d,
            n >= 0,
            d > 0,
    ;
    assert(q <= k) by (nonlinear_arith)
        requires
            q * d <= n,
            n <= k * d,
            d > 0,
    ;
}

/// The two sides mirror each other.
pub proof fn lemma_mirrored_symmetry(is_left: bool, v: int)
    ensures
        mirrored(is_left, v) == -mirrored(!is_left, v),
        mirrored(is_left, -v) == -mirrored(is_left, v),
        mirrored(is_left, mirrored(is_left, v)) == v,
{
}

/// Halving commutes with mirroring.
pub proof fn lemma_half_mirrored(is_left: bool, v: int)
    ensures
        half(mirrored(is_left, v)) == mirrored(is_left, half(v)),
{
}

/// Divides by a positive number, rounding toward zero.
pub fn div_toward_zero(n: i64, d: i64) -> (q: i64)
    requires
        d > 0,
    ensures
        q == trunc_div(n as int, d as int),
{
    n / d
}

/// Mirrors `v` to the given side.
pub fn mirror(is_left: bool, v: i32) -> (r: i64)
    ensures
        r == mirrored(is_left, v as int),
{
    let wide: i64 = v as i64;
    if is_left {
        -wide
    } else {
        wide
    }
}

/// Halves `v`, rounding toward zero.
pub fn halve(v: i64) -> (r: i64)
    ensures
        r == half(v as int),
{
    v / 2
}

} // verus!
