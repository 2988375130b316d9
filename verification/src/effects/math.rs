//! Seeded hashing that drives the pseudo-random parts of the effect.

use vstd::prelude::*;
use crate::raster::{pixel_at, rgb_frame_dims, RgbFrame};
use vstd::arithmetic::div_mod::{lemma_mul_mod_noop_left, lemma_mul_mod_noop_right};
use vstd::arithmetic::mul::lemma_mul_is_associative;

verus! {

/// The golden-ratio increment of the hash.
pub const GOLDEN_GAMMA: u64 = 0x9E37_79B9_7F4A_7C15;

/// First multiplier of the hash finalizer.
pub const MIX_A: u64 = 0xBF58_476D_1CE4_E5B9;

/// Second multiplier of the hash finalizer.
pub const MIX_B: u64 = 0x94D0_49BB_1331_11EB;

/// Multiplication modulo 2^64.
pub open spec fn mul_mod64(a: u64, b: u64) -> u64 {
    ((a as nat * b as nat) % 0x1_0000_0000_0000_0000) as u64
}

/// Addition modulo 2^64.
pub open spec fn add_mod64(a: u64, b: u64) -> u64 {
    ((a as nat + b as nat) % 0x1_0000_0000_0000_0000) as u64
}

/// The 64-bit mixing hash: add the golden gamma, then two
/// xor-shift-multiply rounds and a final xor-shift.
pub open spec fn spec_hash64(z: u64) -> u64 {
    let a = add_mod64(z, GOLDEN_GAMMA);
    let b = mul_mod64(a ^ (a >> 30u64), MIX_A);
    let c = mul_mod64(b ^ (b >> 27u64), MIX_B);
    c ^ (c >> 31u64)
}

/// Mixes `z` into a well-spread 64-bit value.
pub fn hash64(z: u64) -> (h: u64)
    ensures
        h == spec_hash64(z),
{
    let mut z = z.wrapping_add(GOLDEN_GAMMA);
    z = (z ^ (z >> 30)).wrapping_mul(MIX_A);
    z = (z ^ (z >> 27)).wrapping_mul(MIX_B);
    z ^ (z >> 31)
}


/// The inverse of `GOLDEN_GAMMA` modulo 2^64.
pub const GOLDEN_GAMMA_INVERSE: u64 = 0xF1DE_83E1_9937_733D;

/// The inverse of `MIX_A` modulo 2^64.
pub const MIX_A_INVERSE: u64 = 0x96DE_1B17_3F11_9089;

/// The inverse of `MIX_B` modulo 2^64.
pub const MIX_B_INVERSE: u64 = 0x3196_42B2_D24D_8EC3;

/// Undoes the hash: the inverse of each step, applied in reverse order.
pub open spec fn spec_unhash64(h: u64) -> u64 {
    let c = h ^ (h >> 31u64) ^ (h >> 62u64);
    let mb = mul_mod64(c, MIX_B_INVERSE);
    let b = mb ^ (mb >> 27u64) ^ (mb >> 54u64);
    let ma = mul_mod64(b, MIX_A_INVERSE);
    let a = ma ^ (ma >> 30u64) ^ (ma >> 60u64);
    add_mod64(a, (0x1_0000_0000_0000_0000 - GOLDEN_GAMMA) as u64)
}

proof fn lemma_xorshift31_undone(x: u64)
    by (bit_vector)
    ensures
        (x ^ (x >> 31u64)) ^ ((x ^ (x >> 31u64)) >> 31u64) ^ ((x ^ (x >> 31u64)) >> 62u64) == x,
{
}

proof fn lemma_xorshift27_undone(x: u64)
    by (bit_vector)
    ensures
        (x ^ (x >> 27u64)) ^ ((x ^ (x >> 27u64)) >> 27u64) ^ ((x ^ (x >> 27u64)) >> 54u64) == x,
{
}

proof fn lemma_xorshift30_undone(x: u64)
    by (bit_vector)
    ensures
        (x ^ (x >> 30u64)) ^ ((x ^ (x >> 30u64)) >> 30u64) ^ ((x ^ (x >> 30u64)) >> 60u64) == x,
{
}

/// Multiplying by `m` and then by its inverse modulo 2^64 gives `x` back.
pub(crate) proof fn lemma_mul_undone(x: u64, m: u64, inv: u64)
    requires
        (m as int * inv as int) % 0x1_0000_0000_0000_0000 == 1,
    ensures
        mul_mod64(mul_mod64(x, m), inv) == x,
{
    let modulus: int = 0x1_0000_0000_0000_0000;
    let p: int = x as int * m as int;
    lemma_mul_mod_noop_left(p, inv as int, modulus);
    lemma_mul_is_associative(x as int, m as int, inv as int);
    lemma_mul_mod_noop_right(x as int, m as int * inv as int, modulus);
    assert(x as int * 1 == x as int);
}

/// The hash is undone by `spec_unhash64`.
pub proof fn lemma_hash64_undone(z: u64)
    ensures
        spec_unhash64(spec_hash64(z)) == z,
{
    let a = add_mod64(z, GOLDEN_GAMMA);
    let b = mul_mod64(a ^ (a >> 30u64), MIX_A);
    let c = mul_mod64(b ^ (b >> 27u64), MIX_B);
    lemma_xorshift31_undone(c);
    assert((MIX_B as int * MIX_B_INVERSE as int) % 0x1_0000_0000_0000_0000 == 1);
    assert((MIX_A as int * MIX_A_INVERSE as int) % 0x1_0000_0000_0000_0000 == 1);
    lemma_mul_undone(b ^ (b >> 27u64), MIX_B, MIX_B_INVERSE);
    lemma_xorshift27_undone(b);
    lemma_mul_undone(a ^ (a >> 30u64), MIX_A, MIX_A_INVERSE);
    lemma_xorshift30_undone(a);
}

/// The hash is a bijection on `u64`: no two inputs share a hash.
pub proof fn lemma_hash64_injective(a: u64, b: u64)
    requires
        spec_hash64(a) == spec_hash64(b),
    ensures
        a == b,
{
    lemma_hash64_undone(a);
    lemma_hash64_undone(b);
}

/// The shift that `random_shift` draws: zero when `max_shift` is not
/// positive, otherwise the row hash reduced into `-max_shift ..= max_shift`.
pub open spec fn spec_random_shift(seed: u64, y: u64, max_shift: i32, salt: u64) -> int {
    if max_shift <= 0 {
        0
    } else {
        let span = 2 * max_shift + 1;
        let n = spec_hash64(seed ^ mul_mod64(y, GOLDEN_GAMMA) ^ salt) as int % span;
        n - max_shift
    }
}

/// A pseudo-random horizontal shift for row `y`, in `-max_shift ..= max_shift`.
pub fn random_shift(seed: u64, y: u64, max_shift: i32, salt: u64) -> (r: i32)
    ensures
        r == spec_random_shift(seed, y, max_shift, salt),
        max_shift <= 0 ==> r == 0,
        max_shift > 0 ==> -max_shift <= r <= max_shift,
{
    if max_shift <= 0 {
        return 0;
    }
    let span = (max_shift as u64) * 2 + 1;
    let n = hash64(seed ^ (y.wrapping_mul(GOLDEN_GAMMA)) ^ salt) % span;
    (n as i64 - max_shift as i64) as i32
}

/// The 24 high bits of the hash of a pixel position: the numerator of
/// the pseudo-random unit value `bits / 16_777_215` of that position.
pub open spec fn spec_random_unit_bits(seed: u64, x: u64, y: u64, salt: u64) -> u64 {
    spec_hash64(seed ^ mul_mod64(x, GOLDEN_GAMMA) ^ mul_mod64(y, MIX_A) ^ salt) >> 40u64
}

/// The 24-bit numerator of the pseudo-random unit value for `(x, y)`.
pub fn random_unit_bits(seed: u64, x: u64, y: u64, salt: u64) -> (bits: u32)
    ensures
        bits == spec_random_unit_bits(seed, x, y, salt),
        bits <= 16_777_215,
{
    let h = hash64(seed ^ (x.wrapping_mul(GOLDEN_GAMMA)) ^ (y.wrapping_mul(MIX_A)) ^ salt);
    let top = h >> 40;
    assert(top <= 16_777_215) by (bit_vector)
        requires
            top == h >> 40u64,
    ;
    top as u32
}


/// `v` limited to `0 ..= max`.
pub open spec fn clamp_coord(v: int, max: int) -> int {
    if v < 0 {
        0
    } else if v > max {
        max
    } else {
        v
    }
}

/// Reads the pixel nearest to `(x, y)`: coordinates outside the image are
/// clamped to its edges.
pub fn sample_rgb(img: &RgbFrame, x: i32, y: i32) -> (px: [u8; 3])
    requires
        0 < rgb_frame_dims(*img).0,
        0 < rgb_frame_dims(*img).1,
        rgb_frame_dims(*img).0 - 1 <= i32::MAX,
        rgb_frame_dims(*img).1 - 1 <= i32::MAX,
    ensures
        px@ == pixel_at(
            *img,
            clamp_coord(x as int, rgb_frame_dims(*img).0 - 1),
            clamp_coord(y as int, rgb_frame_dims(*img).1 - 1),
        ),
{
    let (width, height) = img.dimensions();
    let max_x = (width - 1) as i32;
    let max_y = (height - 1) as i32;
    let xx: u32 = if x < 0 {
        0
    } else if x > max_x {
        max_x as u32
    } else {
        x as u32
    };
    let yy: u32 = if y < 0 {
        0
    } else if y > max_y {
        max_y as u32
    } else {
        y as u32
    };
    img.pixel(xx, yy)
}

} // verus!
