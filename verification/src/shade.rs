//! The arithmetic of one colour channel: brightness weights, tinting and
//! blending, each step rounded as single precision rounds it.

use vstd::prelude::*;
use crate::rounding::{
    lemma_single_bounds, lemma_spacing_binade, nearest, round_ratio, round_single, single, spacing,
};

verus! {

/// The number one in units of 2^-31, the unit in which weights are held.
pub const ONE: u128 = 0x8000_0000;

/// The brightness weight of a stencil channel: `s / 255` rounded, in units of 2^-31.
///
/// In these units the quotient of a channel from 1 on is at least 2^23, so
/// that whole units are as fine as single precision there
/// ([`lemma_weight_quotient`]); this is the one quotient that the compositor
/// rounds.
pub open spec fn weight(s: u8) -> nat {
    nearest(s as nat * 0x8000_0000, 255)
}

/// The quotient that `weight` rounds is at least 2^23 units for a channel of
/// one or more, where `nearest` rounds as single precision does; the channel
/// zero has the weight zero, which needs no rounding.
pub proof fn lemma_weight_quotient(s: u8)
    ensures
        s >= 1 ==> (s as nat * 0x8000_0000) / 255 >= 0x80_0000,
        s >= 1 ==> spacing((s as nat * 0x8000_0000) / 255) * 0x80_0000 <= (s as nat * 0x8000_0000)
            / 255,
        s == 0 ==> weight(s) == 0,
{
    let q = (s as nat * 0x8000_0000) / 255;
    lemma_spacing_binade(q);
    if s == 0 {
        assert(0nat / (255 * 1) == 0);
        assert(0nat * 1 * 255 == 0);
    }
}

/// Rounding `n / 255` with a known spacing `u` stays at or below one.
proof fn lemma_weight_case(n: nat, u: nat)
    requires
        n <= 255 * 0x8000_0000,
        spacing(n / 255) == u,
        u == 1 || u == 2 || u == 4 || u == 8 || u == 16 || u == 32 || u == 64 || u == 128 || u
            == 256,
        u < 256 ==> n / 255 < u * 0x100_0000,
    ensures
        nearest(n, 255) <= 0x8000_0000,
{
    let k = n / (255 * u);
    assert(k * u <= n / 255 && (k * u) * 255 <= n && k * u * 255 == (k * u) * 255) by (nonlinear_arith)
        requires
            k == n / (255 * u),
            u >= 1,
    ;
    assert((k + 1) * u == k * u + u) by (nonlinear_arith);
    assert(k * u + u <= 0x8000_0000 || (k * u == 0x8000_0000 && n == 255 * 0x8000_0000)) by (nonlinear_arith)
        requires
            k * u <= n / 255,
            (k * u) * 255 <= n,
            n <= 255 * 0x8000_0000,
            u == 1 || u == 2 || u == 4 || u == 8 || u == 16 || u == 32 || u == 64 || u == 128 || u
                == 256,
            u < 256 ==> n / 255 < u * 0x100_0000,
    ;
}

/// A weight is at most one: no stencil channel brightens a tint.
pub proof fn lemma_weight_at_most_one(s: u8)
    ensures
        weight(s) <= 0x8000_0000,
{
    let n: nat = s as nat * 0x8000_0000;
    let q: nat = n / 255;
    let u = spacing(q);
    reveal_with_fuel(spacing, 10);
    assert(q <= 0x8000_0000);
    if q < 0x100_0000 {
        assert(u == 1);
    } else if q < 0x200_0000 {
        assert(u == 2);
    } else if q < 0x400_0000 {
        assert(u == 4);
    } else if q < 0x800_0000 {
        assert(u == 8);
    } else if q < 0x1000_0000 {
        assert(u == 16);
    } else if q < 0x2000_0000 {
        assert(u == 32);
    } else if q < 0x4000_0000 {
        assert(u == 64);
    } else if q < 0x8000_0000 {
        assert(u == 128);
    } else {
        assert(u == 256);
    }
    lemma_weight_case(n, u);
}

/// A quantity, counted in units of which `unit` make one, cut down to a
/// whole number as the conversion to a byte cuts it: toward zero, and never
/// above 255.
pub open spec fn truncate(x: nat, unit: nat) -> u8 {
    if x / unit >= 255 {
        255u8
    } else {
        (x / unit) as u8
    }
}

/// A tint channel `c` laid on a transparent pixel under a stencil channel `s`:
/// the product of `c` and the weight of `s`, rounded, then truncated.
pub open spec fn tint_channel(c: u8, s: u8) -> u8 {
    truncate(single(c as nat * weight(s)), 0x8000_0000)
}

/// The mix of an existing channel `p` and a tint channel `c` at stencil alpha
/// `a`, before the brightness weight is applied, in units of 2^-31: with
/// `t = weight(a)`, the rounded sum of the rounded products `p * (1 - t)` and
/// `c * t`, where `1 - t` is rounded too.
pub open spec fn mix(p: u8, c: u8, a: u8) -> nat {
    let t = weight(a);
    let rest = single((0x8000_0000 - t) as nat);
    single(single(p as nat * rest) + single(c as nat * t))
}

/// A tint channel `c` blended into an existing channel `p` at stencil alpha
/// `a` under a stencil channel `s`: the mix times the weight of `s`, rounded,
/// then truncated.
pub open spec fn blend_channel(p: u8, c: u8, a: u8, s: u8) -> u8 {
    truncate(single(mix(p, c, a) * weight(s)), 0x4000_0000_0000_0000)
}

/// Computes the brightness weight of a stencil channel.
pub fn weight_of(s: u8) -> (w: u128)
    ensures
        w == weight(s),
        w <= ONE,
{
    proof {
        lemma_weight_at_most_one(s);
    }
    round_ratio(s as u128 * ONE, 255)
}

/// Cuts a quantity down to a byte.
fn truncate_to_byte(x: u128, unit: u128) -> (r: u8)
    requires
        unit >= 1,
    ensures
        r == truncate(x as nat, unit as nat),
{
    let whole = x / unit;
    if whole >= 255 {
        255
    } else {
        whole as u8
    }
}

/// Tints a transparent pixel's channel.
pub fn tint(c: u8, s: u8) -> (r: u8)
    ensures
        r == tint_channel(c, s),
{
    let w = weight_of(s);
    proof {
        assert(c as nat * weight(s) <= 255 * 0x8000_0000) by (nonlinear_arith)
            requires
                c <= 255,
                weight(s) <= 0x8000_0000,
        ;
    }
    truncate_to_byte(round_single(c as u128 * w), ONE)
}

/// Mixes an existing channel with a tint channel at a stencil alpha.
pub fn mix_of(p: u8, c: u8, a: u8) -> (m: u128)
    ensures
        m == mix(p, c, a),
        m <= 0x800_0000_0000,
{
    let t = weight_of(a);
    let rest = round_single(ONE - t);
    proof {
        lemma_single_bounds((ONE - t) as nat);
        assert(p as nat * rest as nat <= 255 * 0x1_0000_0000) by (nonlinear_arith)
            requires
                p <= 255,
                rest <= 0x1_0000_0000,
        ;
        assert(c as nat * t as nat <= 255 * 0x8000_0000) by (nonlinear_arith)
            requires
                c <= 255,
                t <= 0x8000_0000,
        ;
        lemma_single_bounds(p as nat * rest as nat);
        lemma_single_bounds(c as nat * t as nat);
    }
    let kept = round_single(p as u128 * rest);
    let laid = round_single(c as u128 * t);
    proof {
        lemma_single_bounds((kept + laid) as nat);
    }
    round_single(kept + laid)
}

/// Blends a tint channel into an opaque pixel's channel.
pub fn blend(p: u8, c: u8, a: u8, s: u8) -> (r: u8)
    ensures
        r == blend_channel(p, c, a, s),
{
    let m = mix_of(p, c, a);
    let w = weight_of(s);
    proof {
        assert(m as nat * w as nat <= 0x800_0000_0000 * 0x8000_0000) by (nonlinear_arith)
            requires
                m <= 0x800_0000_0000,
                w <= 0x8000_0000,
        ;
    }
    truncate_to_byte(round_single(m * w), 0x4000_0000_0000_0000)
}

} // verus!
