//! The random batch: ten variants of the effect, each with its own seed
//! and integer settings, all keeping the chosen color mode.

use vstd::prelude::*;
use crate::cli::{
    DiscreteSettings, GLITCH_SHIFT_MAX, SCANLINE_STEP_MAX, SCANLINE_STEP_MIN,
};
use crate::effects::math::{
    hash64, lemma_hash64_injective, lemma_mul_undone, mul_mod64, spec_hash64, GOLDEN_GAMMA,
    GOLDEN_GAMMA_INVERSE,
};

verus! {

/// How many variants a random batch holds.
pub const BATCH_SIZE: u32 = 10;

/// Salt of a variant's seed.
pub const VARIANT_SEED_SALT: u64 = 0x5EED;

/// Salt of a variant's glitch shift.
pub const VARIANT_GLITCH_SALT: u64 = 1;

/// Salt of a variant's scanline step.
pub const VARIANT_SCANLINE_SALT: u64 = 2;

/// The seed of variant `index` of a batch drawn from `seed`.
pub open spec fn spec_variant_seed(seed: u64, index: u32) -> u64 {
    spec_hash64(seed ^ mul_mod64(index as u64, GOLDEN_GAMMA) ^ VARIANT_SEED_SALT)
}

/// The integer settings of variant `index`: its own seed, a glitch shift
/// drawn from `0 ..= 128`, a scanline step drawn from `1 ..= 32`, and the
/// color mode of `base` unchanged.
pub open spec fn spec_random_variant(base: DiscreteSettings, index: u32) -> DiscreteSettings {
    let seed = spec_variant_seed(base.seed, index);
    DiscreteSettings {
        glitch_shift: (spec_hash64(seed ^ VARIANT_GLITCH_SALT) as int % (GLITCH_SHIFT_MAX as int
            + 1)) as i32,
        scanline_step: (SCANLINE_STEP_MIN as int + spec_hash64(seed ^ VARIANT_SCANLINE_SALT) as int
            % (SCANLINE_STEP_MAX as int)) as u32,
        seed,
        color_boost: base.color_boost,
    }
}

/// The integer settings of variant `index` of a random batch.
pub fn random_variant(base: &DiscreteSettings, index: u32) -> (variant: DiscreteSettings)
    ensures
        variant == spec_random_variant(*base, index),
        variant.wf(),
        variant.color_boost == base.color_boost,
{
    let seed = hash64(base.seed ^ (index as u64).wrapping_mul(GOLDEN_GAMMA) ^ VARIANT_SEED_SALT);
    let glitch_shift = (hash64(seed ^ VARIANT_GLITCH_SALT) % (GLITCH_SHIFT_MAX as u64 + 1)) as i32;
    let scanline_step = (SCANLINE_STEP_MIN as u64 + hash64(seed ^ VARIANT_SCANLINE_SALT) % (
    SCANLINE_STEP_MAX as u64)) as u32;
    DiscreteSettings { glitch_shift, scanline_step, seed, color_boost: base.color_boost }
}

/// A variant's glitch shift and scanline step depend on its own seed
/// alone: two variants with the same seed, from whatever base and index,
/// share them.
pub proof fn lemma_variant_settings_follow_own_seed(
    base1: DiscreteSettings,
    index1: u32,
    base2: DiscreteSettings,
    index2: u32,
)
    requires
        spec_random_variant(base1, index1).seed == spec_random_variant(base2, index2).seed,
    ensures
        spec_random_variant(base1, index1).glitch_shift == spec_random_variant(
            base2,
            index2,
        ).glitch_shift,
        spec_random_variant(base1, index1).scanline_step == spec_random_variant(
            base2,
            index2,
        ).scanline_step,
{
}

proof fn lemma_xor_cancel(a: u64, x: u64, y: u64, c: u64)
    by (bit_vector)
    requires
        a ^ x ^ c == a ^ y ^ c,
    ensures
        x == y,
{
}

/// The variants of one batch have pairwise different seeds.
pub proof fn lemma_variant_seeds_distinct(seed: u64, index1: u32, index2: u32)
    requires
        index1 != index2,
    ensures
        spec_variant_seed(seed, index1) != spec_variant_seed(seed, index2),
{
    let m1 = mul_mod64(index1 as u64, GOLDEN_GAMMA);
    let m2 = mul_mod64(index2 as u64, GOLDEN_GAMMA);
    if spec_variant_seed(seed, index1) == spec_variant_seed(seed, index2) {
        lemma_hash64_injective(seed ^ m1 ^ VARIANT_SEED_SALT, seed ^ m2 ^ VARIANT_SEED_SALT);
        lemma_xor_cancel(seed, m1, m2, VARIANT_SEED_SALT);
        assert((GOLDEN_GAMMA as int * GOLDEN_GAMMA_INVERSE as int) % 0x1_0000_0000_0000_0000 == 1);
        lemma_mul_undone(index1 as u64, GOLDEN_GAMMA, GOLDEN_GAMMA_INVERSE);
        lemma_mul_undone(index2 as u64, GOLDEN_GAMMA, GOLDEN_GAMMA_INVERSE);
    }
}

} // verus!
