//! Seeded coherent-noise primitive and its fractal (multi-octave) combiner.
//!
//! The primitive is value noise over an integer lattice: every lattice corner
//! gets a pseudo-random value derived from the seed by integer mixing, and the
//! value between corners is a smoothstep-weighted bilinear blend, so the field
//! is continuous in its fixed-point inputs. Values are kept shifted into
//! [0, `RAW_SPAN`], standing for raw noise in [-1, 1] scaled and translated by
//! `NOISE_ONE`; one lattice cell spans `NOISE_ONE` fixed-point units.
//!
//! The fractal combiner sums six octaves. Octave `k` samples the field at the
//! coordinate scaled by `2^k` (lacunarity 2) with amplitude `0.8^k`
//! (persistence 0.8), and the sum is normalized by the total amplitude, so the
//! combined value stays in [0, `RAW_SPAN`] no matter the octave count.

use vstd::prelude::*;
#[allow(unused_imports)]
use vstd::arithmetic::div_mod::{lemma_div_is_ordered, lemma_div_multiples_vanish};

verus! {

/// Fixed-point 1.0 inside the noise domain; also the lattice cell size.
pub const NOISE_ONE: u64 = 1_000_000;

/// Largest shifted noise value: raw 1.0 stored as `(1 + 1) * NOISE_ONE`.
pub const RAW_SPAN: u64 = 2_000_000;

/// Bound on a (signed) noise-domain coordinate accepted by the sampler; wide
/// enough for every world coordinate reachable from 32-bit chunk coordinates.
pub const COORD_LIMIT: i64 = 104_000_000_000_000;

/// Shift added to a signed coordinate to move every accepted input, at every
/// octave frequency, into the non-negative range: `2^52 > 32 * COORD_LIMIT`.
pub const COORD_BIAS: i64 = 0x10_0000_0000_0000;

/// Largest biased coordinate: `COORD_BIAS + 32 * COORD_LIMIT`.
pub const BIASED_LIMIT: u64 = 7_831_599_627_370_496;

/// Octave amplitudes `0.8^k` in fixed point, and their sum.
pub const AMP0: u64 = 1_000_000;
pub const AMP1: u64 = 800_000;
pub const AMP2: u64 = 640_000;
pub const AMP3: u64 = 512_000;
pub const AMP4: u64 = 409_600;
pub const AMP5: u64 = 327_680;
pub const AMP_SUM: u64 = 3_689_280;

/// 64-bit finalizing mixer: bijective avalanche mixing by xor-shifts and
/// wrapping multiplications.
#[verifier::opaque]
pub open spec fn spec_mix64(x: u64) -> u64 {
    let a = vstd::wrapping::u64_specs::wrapping_mul(x ^ (x >> 33), 0xFF51AFD7ED558CCD);
    let b = vstd::wrapping::u64_specs::wrapping_mul(a ^ (a >> 33), 0xC4CEB9FE1A85EC53);
    b ^ (b >> 33)
}

pub(crate) fn mix64(x: u64) -> (r: u64)
    ensures
        r == spec_mix64(x),
{
    proof {
        reveal(spec_mix64);
    }
    let a = (x ^ (x >> 33)).wrapping_mul(0xFF51AFD7ED558CCD);
    let b = (a ^ (a >> 33)).wrapping_mul(0xC4CEB9FE1A85EC53);
    b ^ (b >> 33)
}

/// The pseudo-random lattice value at corner `(xi, yi)` for this seed,
/// shifted into [0, RAW_SPAN].
pub open spec fn spec_corner(seed: u32, xi: u64, yi: u64) -> int {
    (spec_mix64(spec_mix64(spec_mix64(seed as u64) ^ xi) ^ yi) as int) % (RAW_SPAN + 1)
}

fn corner(seed: u32, xi: u64, yi: u64) -> (r: u64)
    ensures
        r == spec_corner(seed, xi, yi),
        r <= RAW_SPAN,
{
    let m = mix64(mix64(mix64(seed as u64) ^ xi) ^ yi);
    m % (RAW_SPAN + 1)
}

/// Smoothstep weight `3t^2 - 2t^3` of the in-cell offset `t`, in fixed point.
pub open spec fn spec_smooth(t: u64) -> int {
    (t * t * (3 * NOISE_ONE - 2 * t)) / (NOISE_ONE * NOISE_ONE)
}

proof fn lemma_smooth_bound(t: u64)
    requires
        t <= NOISE_ONE,
    ensures
        0 <= spec_smooth(t) <= NOISE_ONE,
{
    let one = NOISE_ONE as int;
    let cubic = t * t * (3 * one - 2 * t);
    assert(cubic <= one * one * one) by (nonlinear_arith)
        requires
            0 <= t <= one,
            cubic == t * t * (3 * one - 2 * t),
    {
        let d = one - t;
        assert(one * one * one - t * t * (3 * one - 2 * t) == d * d * (one + 2 * t));
        assert(d * d * (one + 2 * t) >= 0);
    }
    assert(cubic >= 0) by (nonlinear_arith)
        requires
            0 <= t <= one,
            cubic == t * t * (3 * one - 2 * t),
    ;
    lemma_div_is_ordered(cubic, one * one * one, one * one);
    lemma_div_multiples_vanish(one, one * one);
    assert(one * one * one == (one * one) * one);
    lemma_div_is_ordered(0, cubic, one * one);
}

fn smooth(t: u64) -> (r: u64)
    requires
        t < NOISE_ONE,
    ensures
        r == spec_smooth(t),
        r <= NOISE_ONE,
{
    proof {
        lemma_smooth_bound(t);
        assert((t as int) * (t as int) <= 1_000_000_000_000) by (nonlinear_arith)
            requires
                0 <= t <= 1_000_000,
        ;
        let c = (t as int) * (t as int) * (3 * (NOISE_ONE as int) - 2 * (t as int));
        assert(c <= 3_000_000_000_000_000_000) by (nonlinear_arith)
            requires
                0 <= t <= 1_000_000,
                c == (t as int) * (t as int) * (3 * 1_000_000 - 2 * (t as int)),
        ;
    }
    let cubic: u64 = t * t * (3 * NOISE_ONE - 2 * t);
    cubic / (NOISE_ONE * NOISE_ONE)
}

/// Fixed-point interpolation from `a` to `b` by weight `t` in [0, NOISE_ONE].
pub open spec fn spec_lerp(a: int, b: int, t: int) -> int {
    (a * (NOISE_ONE - t) + b * t) / (NOISE_ONE as int)
}

proof fn lemma_lerp_bound(a: int, b: int, t: int)
    requires
        0 <= a <= RAW_SPAN,
        0 <= b <= RAW_SPAN,
        0 <= t <= NOISE_ONE,
    ensures
        0 <= spec_lerp(a, b, t) <= RAW_SPAN,
{
    let one = NOISE_ONE as int;
    let span = RAW_SPAN as int;
    let num = a * (one - t) + b * t;
    assert(0 <= num <= span * one) by (nonlinear_arith)
        requires
            0 <= a <= span,
            0 <= b <= span,
            0 <= t <= one,
            num == a * (one - t) + b * t,
    {
        assert(a * (one - t) <= span * (one - t));
        assert(b * t <= span * t);
    }
    lemma_div_is_ordered(0, num, one);
    lemma_div_is_ordered(num, span * one, one);
    lemma_div_multiples_vanish(span, one);
}

fn lerp(a: u64, b: u64, t: u64) -> (r: u64)
    requires
        a <= RAW_SPAN,
        b <= RAW_SPAN,
        t <= NOISE_ONE,
    ensures
        r == spec_lerp(a as int, b as int, t as int),
        r <= RAW_SPAN,
{
    proof {
        lemma_lerp_bound(a as int, b as int, t as int);
        let n = (a as int) * ((NOISE_ONE as int) - (t as int)) + (b as int) * (t as int);
        assert(n <= 4_000_000_000_000) by (nonlinear_arith)
            requires
                a <= 2_000_000 && b <= 2_000_000 && 0 <= t <= 1_000_000,
                n == (a as int) * (1_000_000 - (t as int)) + (b as int) * (t as int),
        ;
    }
    let num: u64 = a * (NOISE_ONE - t) + b * t;
    num / NOISE_ONE
}

/// One sample of the coherent-noise primitive at the biased (non-negative)
/// coordinate `(bx, by)`: the smooth bilinear blend of the four surrounding
/// lattice corner values, shifted into [0, RAW_SPAN].
pub open spec fn spec_value_noise(seed: u32, bx: u64, by: u64) -> int {
    let xi = (bx as int / NOISE_ONE as int) as u64;
    let yi = (by as int / NOISE_ONE as int) as u64;
    let fx = bx as int % NOISE_ONE as int;
    let fy = by as int % NOISE_ONE as int;
    let sx = spec_smooth(fx as u64);
    let sy = spec_smooth(fy as u64);
    let c00 = spec_corner(seed, xi, yi);
    let c10 = spec_corner(seed, (xi + 1) as u64, yi);
    let c01 = spec_corner(seed, xi, (yi + 1) as u64);
    let c11 = spec_corner(seed, (xi + 1) as u64, (yi + 1) as u64);
    spec_lerp(spec_lerp(c00, c10, sx), spec_lerp(c01, c11, sx), sy)
}

fn value_noise(seed: u32, bx: u64, by: u64) -> (r: u64)
    requires
        bx <= BIASED_LIMIT,
        by <= BIASED_LIMIT,
    ensures
        r == spec_value_noise(seed, bx, by),
        r <= RAW_SPAN,
{
    let xi = bx / NOISE_ONE;
    let yi = by / NOISE_ONE;
    let fx = bx % NOISE_ONE;
    let fy = by % NOISE_ONE;
    let sx = smooth(fx);
    let sy = smooth(fy);
    let c00 = corner(seed, xi, yi);
    let c10 = corner(seed, xi + 1, yi);
    let c01 = corner(seed, xi, yi + 1);
    let c11 = corner(seed, xi + 1, yi + 1);
    let low = lerp(c00, c10, sx);
    let high = lerp(c01, c11, sx);
    proof {
        lemma_lerp_bound(c00 as int, c10 as int, sx as int);
        lemma_lerp_bound(c01 as int, c11 as int, sx as int);
    }
    lerp(low, high, sy)
}

/// The biased (non-negative) form of a signed noise-domain coordinate.
pub open spec fn spec_biased(c: int) -> u64 {
    (c + COORD_BIAS) as u64
}

/// The six-octave fractal noise value at signed coordinate `(nx, ny)`,
/// shifted into [0, RAW_SPAN]: each octave doubles the frequency and scales
/// its contribution by the next power of 0.8, and the weighted sum is
/// normalized by the accumulated amplitude.
#[verifier::opaque]
pub open spec fn spec_fractal_noise(seed: u32, nx: int, ny: int) -> int {
    let v0 = spec_value_noise(seed, spec_biased(nx), spec_biased(ny));
    let v1 = spec_value_noise(seed, spec_biased(2 * nx), spec_biased(2 * ny));
    let v2 = spec_value_noise(seed, spec_biased(4 * nx), spec_biased(4 * ny));
    let v3 = spec_value_noise(seed, spec_biased(8 * nx), spec_biased(8 * ny));
    let v4 = spec_value_noise(seed, spec_biased(16 * nx), spec_biased(16 * ny));
    let v5 = spec_value_noise(seed, spec_biased(32 * nx), spec_biased(32 * ny));
    (v0 * AMP0 + v1 * AMP1 + v2 * AMP2 + v3 * AMP3 + v4 * AMP4 + v5 * AMP5) / (AMP_SUM as int)
}

pub proof fn lemma_fractal_noise_bound(seed: u32, nx: int, ny: int)
    requires
        -COORD_LIMIT <= nx <= COORD_LIMIT,
        -COORD_LIMIT <= ny <= COORD_LIMIT,
    ensures
        0 <= spec_fractal_noise(seed, nx, ny) <= RAW_SPAN,
{
    reveal(spec_fractal_noise);
    let total = fractal_total(seed, nx, ny);
    lemma_fractal_total_bound(seed, nx, ny);
    lemma_div_is_ordered(0, total, AMP_SUM as int);
    lemma_div_is_ordered(total, RAW_SPAN * AMP_SUM, AMP_SUM as int);
    lemma_div_multiples_vanish(RAW_SPAN as int, AMP_SUM as int);
}

/// The un-normalized octave sum.
spec fn fractal_total(seed: u32, nx: int, ny: int) -> int {
    spec_value_noise(seed, spec_biased(nx), spec_biased(ny)) * AMP0
        + spec_value_noise(seed, spec_biased(2 * nx), spec_biased(2 * ny)) * AMP1
        + spec_value_noise(seed, spec_biased(4 * nx), spec_biased(4 * ny)) * AMP2
        + spec_value_noise(seed, spec_biased(8 * nx), spec_biased(8 * ny)) * AMP3
        + spec_value_noise(seed, spec_biased(16 * nx), spec_biased(16 * ny)) * AMP4
        + spec_value_noise(seed, spec_biased(32 * nx), spec_biased(32 * ny)) * AMP5
}

proof fn lemma_value_noise_bound(seed: u32, bx: u64, by: u64)
    ensures
        0 <= spec_value_noise(seed, bx, by) <= RAW_SPAN,
{
    let xi = (bx as int / NOISE_ONE as int) as u64;
    let yi = (by as int / NOISE_ONE as int) as u64;
    let fx = bx as int % NOISE_ONE as int;
    let fy = by as int % NOISE_ONE as int;
    lemma_smooth_bound(fx as u64);
    lemma_smooth_bound(fy as u64);
    let sx = spec_smooth(fx as u64);
    let sy = spec_smooth(fy as u64);
    let c00 = spec_corner(seed, xi, yi);
    let c10 = spec_corner(seed, (xi + 1) as u64, yi);
    let c01 = spec_corner(seed, xi, (yi + 1) as u64);
    let c11 = spec_corner(seed, (xi + 1) as u64, (yi + 1) as u64);
    lemma_lerp_bound(c00, c10, sx);
    lemma_lerp_bound(c01, c11, sx);
    lemma_lerp_bound(spec_lerp(c00, c10, sx), spec_lerp(c01, c11, sx), sy);
}

proof fn lemma_fractal_total_bound(seed: u32, nx: int, ny: int)
    ensures
        0 <= fractal_total(seed, nx, ny) <= RAW_SPAN * AMP_SUM,
{
    lemma_value_noise_bound(seed, spec_biased(nx), spec_biased(ny));
    lemma_value_noise_bound(seed, spec_biased(2 * nx), spec_biased(2 * ny));
    lemma_value_noise_bound(seed, spec_biased(4 * nx), spec_biased(4 * ny));
    lemma_value_noise_bound(seed, spec_biased(8 * nx), spec_biased(8 * ny));
    lemma_value_noise_bound(seed, spec_biased(16 * nx), spec_biased(16 * ny));
    lemma_value_noise_bound(seed, spec_biased(32 * nx), spec_biased(32 * ny));
}

/// Bias a frequency-scaled coordinate into the unsigned sampler domain.
fn biased(c: i64) -> (r: u64)
    requires
        -32 * COORD_LIMIT <= c <= 32 * COORD_LIMIT,
    ensures
        r == spec_biased(c as int),
        r <= BIASED_LIMIT,
{
    (c + COORD_BIAS) as u64
}

/// One fractal noise sample; the executable form of [`spec_fractal_noise`].
pub fn fractal_noise(seed: u32, nx: i64, ny: i64) -> (r: u64)
    requires
        -COORD_LIMIT <= nx <= COORD_LIMIT,
        -COORD_LIMIT <= ny <= COORD_LIMIT,
    ensures
        r == spec_fractal_noise(seed, nx as int, ny as int),
        r <= RAW_SPAN,
{
    let v0 = value_noise(seed, biased(nx), biased(ny));
    let v1 = value_noise(seed, biased(2 * nx), biased(2 * ny));
    let v2 = value_noise(seed, biased(4 * nx), biased(4 * ny));
    let v3 = value_noise(seed, biased(8 * nx), biased(8 * ny));
    let v4 = value_noise(seed, biased(16 * nx), biased(16 * ny));
    let v5 = value_noise(seed, biased(32 * nx), biased(32 * ny));
    let total: u64 = v0 * AMP0 + v1 * AMP1 + v2 * AMP2 + v3 * AMP3 + v4 * AMP4 + v5 * AMP5;
    proof {
        reveal(spec_fractal_noise);
        lemma_fractal_noise_bound(seed, nx as int, ny as int);
        lemma_fractal_total_bound(seed, nx as int, ny as int);
    }
    total / AMP_SUM
}

} // verus!
