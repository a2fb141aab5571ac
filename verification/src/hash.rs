//! The integer hash behind the pseudo-random initial board.
use vstd::prelude::*;

verus! {

/// `a * b` modulo 2^32.
pub open spec fn wrapping_product(a: u32, b: u32) -> u32 {
    ((a as nat * b as nat) % 0x1_0000_0000) as u32
}

/// Mixes the bits of `h` with `h >> shift`.
pub open spec fn xor_shift(h: u32, shift: u32) -> u32 {
    h ^ (h >> shift)
}

/// The hash of cell `(x, y)` under `seed`: the two coordinates are spread by
/// multiplication, combined with the seed, and then mixed by alternating
/// xor-shifts and multiplications.
pub open spec fn cell_hash(x: u32, y: u32, seed: u32) -> u32 {
    let h0 = wrapping_product(x, 0x9E37_79B9) ^ wrapping_product(y, 0x85EB_CA6B) ^ seed;
    let h1 = wrapping_product(xor_shift(h0, 16), 0x7FEB_352D);
    let h2 = wrapping_product(xor_shift(h1, 15), 0x846C_A68B);
    xor_shift(h2, 16)
}

/// Hashes cell `(x, y)` under `seed` into 32 well-mixed bits.
pub fn hash_bits(x: u32, y: u32, seed: u32) -> (h: u32)
    ensures
        h == cell_hash(x, y, seed),
{
    let mut h = x.wrapping_mul(0x9E37_79B9) ^ y.wrapping_mul(0x85EB_CA6B) ^ seed;
    h ^= h >> 16;
    h = h.wrapping_mul(0x7FEB_352D);
    h ^= h >> 15;
    h = h.wrapping_mul(0x846C_A68B);
    h ^= h >> 16;
    h
}

} // verus!
