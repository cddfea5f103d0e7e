use vstd::prelude::*;

verus! {

/// A masked value never exceeds the mask.
pub proof fn lemma_u64_mask_le(x: u64, m: u64)
    ensures
        (x & m) <= m,
{
    assert((x & m) <= m) by (bit_vector);
}

/// A masked value never exceeds the mask.
pub proof fn lemma_u32_mask_le(x: u32, m: u32)
    ensures
        (x & m) <= m,
{
    assert((x & m) <= m) by (bit_vector);
}

/// A power of two is at least one.
pub proof fn lemma_u32_pow2_ge_one(n: u32)
    requires
        n < 32,
    ensures
        1 <= (1u32 << n),
{
    assert(n < 32 ==> 1 <= (1u32 << n)) by (bit_vector);
}

/// The two-bit size code of an image or tile shifts a base of 4 into one
/// of the four hardware texel sizes.
pub proof fn lemma_size_code_bpp(k: u32)
    requires
        k <= 3,
    ensures
        4u32 << k == 4 || 4u32 << k == 8 || 4u32 << k == 16 || 4u32 << k == 32,
{
    assert(k <= 3 ==> (4u32 << k == 4 || 4u32 << k == 8 || 4u32 << k == 16 || 4u32 << k == 32))
        by (bit_vector);
}

} // verus!
