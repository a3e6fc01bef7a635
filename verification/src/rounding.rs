//! Rounding to twenty-four significant bits, ties to even.
//!
//! The compositor scales and mixes colour channels the way IEEE 754 single
//! precision does: every product, sum and quotient is rounded to the nearest
//! value with a significand of twenty-four bits, and a tie goes to the value
//! whose significand is even.  Here a quantity is a count of equal units (the
//! compositor uses units of 2^-31 and 2^-62), so that the rounding is a
//! function on natural numbers.  No quantity of the compositor comes near an
//! exponent limit of the format, so the significand alone decides.

use vstd::prelude::*;

verus! {

/// The distance between neighbouring representable values at magnitude `x`:
/// one up to 2^24, and doubling with each further binade.
pub open spec fn spacing(x: nat) -> nat
    decreases x,
{
    if x < 0x100_0000 {
        1
    } else {
        2 * spacing(x / 2)
    }
}

/// The quotient `n / d` rounded to the nearest multiple of the spacing at its
/// magnitude; of two multiples equally near, the even one.
///
/// For a quotient below 2^23 units that is no whole number the spacing of
/// single precision is finer than one unit; this function then rounds to
/// whole units.  Callers that stand for single precision keep their
/// quotients at 2^23 units or more, or divide by one.
pub open spec fn nearest(n: nat, d: nat) -> nat {
    let u = spacing(n / d);
    let k = n / (d * u);
    let twice = 2 * (n - k * u * d);
    if twice < u * d {
        k * u
    } else if twice > u * d {
        (k + 1) * u
    } else if k % 2 == 0 {
        k * u
    } else {
        (k + 1) * u
    }
}

/// A count of units rounded to twenty-four significant bits.
pub open spec fn single(n: nat) -> nat {
    nearest(n, 1)
}

/// The spacing is positive, and from 2^24 on it places `x` in the binade
/// whose significands have twenty-four bits.
pub proof fn lemma_spacing_binade(x: nat)
    ensures
        spacing(x) >= 1,
        x < 0x100_0000 ==> spacing(x) == 1,
        x >= 0x100_0000 ==> spacing(x) * 0x80_0000 <= x < spacing(x) * 0x100_0000,
    decreases x,
{
    if x >= 0x100_0000 {
        lemma_spacing_binade(x / 2);
    }
}

/// The spacing at magnitude `x`.
pub fn spacing_of(x: u128) -> (u: u128)
    ensures
        u == spacing(x as nat),
        u >= 1,
        x >= 0x100_0000 ==> u * 0x80_0000 <= x,
{
    let mut u: u128 = 1;
    let mut m: u128 = x;
    while m >= 0x100_0000
        invariant
            u >= 1,
            spacing(x as nat) == u * spacing(m as nat),
            u * m <= x,
        decreases m,
    {
        proof {
            let s = spacing((m / 2) as nat);
            assert(u * (2 * s) == (2 * u) * s) by (nonlinear_arith);
            assert((2 * u) * (m / 2) <= u * m) by (nonlinear_arith)
                requires
                    u >= 1,
                    m >= 0,
            ;
            assert(2 * u <= u * m) by (nonlinear_arith)
                requires
                    u >= 1,
                    m >= 2,
            ;
        }
        m = m / 2;
        u = u * 2;
    }
    proof {
        lemma_spacing_binade(x as nat);
        assert(u * 1 == u) by (nonlinear_arith);
    }
    u
}

/// What makes `nearest` the rounding to nearest, ties to even: the result is
/// a multiple of the spacing, it lies within half a spacing of the quotient,
/// and where it lies exactly half a spacing away it is an even multiple.
pub proof fn lemma_nearest_is_nearest(n: nat, d: nat)
    requires
        d >= 1,
    ensures
        ({
            let u = spacing(n / d);
            let r = nearest(n, d);
            &&& r % u == 0
            &&& 2 * (r * d - n) <= u * d
            &&& 2 * (n - r * d) <= u * d
            &&& (2 * (r * d - n) == u * d || 2 * (n - r * d) == u * d) ==> (r / u) % 2 == 0
        }),
{
    let u = spacing(n / d);
    let k = n / (d * u);
    lemma_spacing_binade(n / d);
    assert(k * u * d <= n < k * u * d + u * d) by (nonlinear_arith)
        requires
            k == n / (d * u),
            d >= 1,
            u >= 1,
    ;
    assert((k + 1) * u * d == k * u * d + u * d) by (nonlinear_arith);
    assert((k * u) % u == 0 && (k * u) / u == k) by (nonlinear_arith)
        requires
            u >= 1,
    ;
    assert(((k + 1) * u) % u == 0 && ((k + 1) * u) / u == k + 1) by (nonlinear_arith)
        requires
            u >= 1,
    ;
}

/// A rounded quotient lies within one spacing of the whole part of the quotient.
pub proof fn lemma_nearest_bounds(n: nat, d: nat)
    requires
        d >= 1,
    ensures
        nearest(n, d) <= n / d + spacing(n / d),
        nearest(n, d) + spacing(n / d) > n / d,
{
    let q = n / d;
    let u = spacing(q);
    let k = n / (d * u);
    lemma_spacing_binade(q);
    assert(k * u <= q && q < k * u + u) by (nonlinear_arith)
        requires
            q == n / d,
            k == n / (d * u),
            d >= 1,
            u >= 1,
    ;
    assert((k + 1) * u == k * u + u) by (nonlinear_arith);
}

/// A count below 2^24 is representable and rounds to itself; a larger one
/// moves by at most its spacing, so that rounding never doubles a count.
pub proof fn lemma_single_bounds(n: nat)
    ensures
        n < 0x100_0000 ==> single(n) == n,
        single(n) <= 2 * n,
{
    let u = spacing(n / 1);
    let k = n / (1 * u);
    lemma_spacing_binade(n);
    lemma_nearest_bounds(n, 1);
    if n < 0x100_0000 {
        assert(k * u * 1 == n) by (nonlinear_arith)
            requires
                u == 1,
                k == n / (1 * u),
        ;
        assert(k * u == n) by (nonlinear_arith)
            requires
                u == 1,
                k == n / (1 * u),
        ;
    }
}

/// Divides and rounds the quotient to twenty-four significant bits.
pub fn round_ratio(n: u128, d: u128) -> (r: u128)
    requires
        d >= 1,
        n < 0x8000_0000_0000_0000_0000_0000_0000_0000,
        d < 0x8000_0000_0000_0000_0000_0000_0000_0000,
    ensures
        r == nearest(n as nat, d as nat),
{
    let q = n / d;
    let u = spacing_of(q);
    proof {
        assert(d * u <= n || u == 1) by (nonlinear_arith)
            requires
                q == n / d,
                d >= 1,
                u >= 1,
                q >= 0x100_0000 ==> u * 0x80_0000 <= q,
                q < 0x100_0000 ==> u == 1,
        ;
        assert(d * u == d || u != 1) by (nonlinear_arith);
        assert(d * u >= 1) by (nonlinear_arith)
            requires
                d >= 1,
                u >= 1,
        ;
    }
    let du = d * u;
    let k = n / du;
    proof {
        assert(k * u <= n && (k * u) * d <= n && n - (k * u) * d < du) by (nonlinear_arith)
            requires
                k == n / du,
                du == d * u,
                d >= 1,
                u >= 1,
        ;
        assert(u <= n || u == 1) by (nonlinear_arith)
            requires
                q == n / d,
                d >= 1,
                q >= 0x100_0000 ==> u * 0x80_0000 <= q,
                q < 0x100_0000 ==> u == 1,
        ;
        assert((k + 1) * u == k * u + u) by (nonlinear_arith);
        assert(u * d == d * u) by (nonlinear_arith);
    }
    let lo = k * u;
    let twice = 2 * (n - lo * d);
    if twice < du {
        lo
    } else if twice > du {
        lo + u
    } else if k % 2 == 0 {
        lo
    } else {
        lo + u
    }
}

/// Rounds a count of units to twenty-four significant bits.
pub fn round_single(n: u128) -> (r: u128)
    requires
        n < 0x8000_0000_0000_0000_0000_0000_0000_0000,
    ensures
        r == single(n as nat),
{
    round_ratio(n, 1)
}

} // verus!
