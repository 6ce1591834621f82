use vstd::prelude::*;

use crate::vector_bits::VectorBits;

verus! {

/// Content hashing for pixel buffers: a deterministic, order-sensitive
/// 64-bit hash over the bit patterns of every channel of every pixel
/// (FNV-1a, folded word by word). Two snapshots with equal pixel
/// content always hash equally, so a consumer can detect "nothing
/// changed" without a deep comparison; unequal content collides only
/// astronomically rarely, and a collision only costs a skipped redraw.

pub const FNV_OFFSET_BASIS: u64 = 0xcbf2_9ce4_8422_2325;

pub const FNV_PRIME: u64 = 0x0000_0100_0000_01b3;

/// One FNV-1a step: absorb a 32-bit word into the running state.
pub open spec fn spec_mix_word(h: u64, w: u32) -> u64 {
    vstd::wrapping::u64_specs::wrapping_mul(h ^ (w as u64), FNV_PRIME)
}

/// Absorb a pixel's three channels, x then y then z.
pub open spec fn spec_mix_vector(h: u64, v: VectorBits) -> u64 {
    spec_mix_word(spec_mix_word(spec_mix_word(h, v.x), v.y), v.z)
}

/// The hash state after absorbing the first `n` pixels of `pixels`.
pub open spec fn spec_hash_prefix(pixels: Seq<VectorBits>, n: int) -> u64
    decreases n,
{
    if n <= 0 {
        FNV_OFFSET_BASIS
    } else {
        spec_mix_vector(spec_hash_prefix(pixels, n - 1), pixels[n - 1])
    }
}

/// The hash of a whole pixel buffer.
pub open spec fn spec_hash_pixels(pixels: Seq<VectorBits>) -> u64 {
    spec_hash_prefix(pixels, pixels.len() as int)
}

pub fn hash_vec_of_vectors(pixels: &Vec<VectorBits>) -> (h: u64)
    ensures
        h == spec_hash_pixels(pixels@),
{
    let mut h: u64 = FNV_OFFSET_BASIS;
    let mut i: usize = 0;
    while i < pixels.len()
        invariant
            i <= pixels@.len(),
            h == spec_hash_prefix(pixels@, i as int),
        decreases pixels@.len() - i,
    {
        let v = pixels[i];
        h = (h ^ (v.x as u64)).wrapping_mul(FNV_PRIME);
        h = (h ^ (v.y as u64)).wrapping_mul(FNV_PRIME);
        h = (h ^ (v.z as u64)).wrapping_mul(FNV_PRIME);
        i = i + 1;
    }
    h
}

} // verus!
