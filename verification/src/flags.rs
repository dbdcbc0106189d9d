//! Bit facts behind the flag sets of this crate. Every flag set is specified
//! over its bits, so the laws below hold for each of them.
use vstd::prelude::*;

verus! {

/// No bit of zero lies outside any mask.
pub proof fn lemma_zero_within(mask: u32)
    ensures
        0u32 & !mask == 0,
{
    assert(0u32 & !mask == 0) by (bit_vector);
}

/// Masking a value leaves no bit outside the mask.
pub proof fn lemma_mask_within(bits: u32, mask: u32)
    ensures
        (bits & mask) & !mask == 0,
{
    assert((bits & mask) & !mask == 0) by (bit_vector);
}

/// A mask lies inside itself.
pub proof fn lemma_self_within(mask: u32)
    ensures
        mask & !mask == 0,
{
    assert(mask & !mask == 0) by (bit_vector);
}

/// Masking a value whose bits lie inside the mask leaves it unchanged.
pub proof fn lemma_within_mask_keeps(bits: u32, mask: u32)
    requires
        bits & !mask == 0,
    ensures
        bits & mask == bits,
{
    assert(bits & !mask == 0 ==> bits & mask == bits) by (bit_vector);
}

/// The union of two values inside a mask lies inside the mask.
pub proof fn lemma_or_within(a: u32, b: u32, mask: u32)
    requires
        a & !mask == 0,
        b & !mask == 0,
    ensures
        (a | b) & !mask == 0,
{
    assert(a & !mask == 0 && b & !mask == 0 ==> (a | b) & !mask == 0) by (bit_vector);
}

/// The common bits of a value inside a mask and any other value lie inside
/// the mask.
pub proof fn lemma_and_within(a: u32, b: u32, mask: u32)
    requires
        a & !mask == 0,
    ensures
        (a & b) & !mask == 0,
{
    assert(a & !mask == 0 ==> (a & b) & !mask == 0) by (bit_vector);
}

/// Clearing bits of a value inside a mask keeps it inside the mask.
pub proof fn lemma_and_not_within(a: u32, b: u32, mask: u32)
    requires
        a & !mask == 0,
    ensures
        (a & !b) & !mask == 0,
{
    assert(a & !mask == 0 ==> (a & !b) & !mask == 0) by (bit_vector);
}

/// Flipping bits inside a mask keeps a value inside the mask.
pub proof fn lemma_xor_within(a: u32, b: u32, mask: u32)
    requires
        a & !mask == 0,
        b & !mask == 0,
    ensures
        (a ^ b) & !mask == 0,
{
    assert(a & !mask == 0 && b & !mask == 0 ==> (a ^ b) & !mask == 0) by (bit_vector);
}

/// After the flags of `other` are set, the set contains them.
pub proof fn lemma_insert_contains(bits: u32, other: u32)
    ensures
        (bits | other) & other == other,
{
    assert((bits | other) & other == other) by (bit_vector);
}

/// After the flags of `other` are cleared, the set shares no flag with them.
pub proof fn lemma_remove_excludes(bits: u32, other: u32)
    ensures
        (bits & !other) & other == 0,
{
    assert((bits & !other) & other == 0) by (bit_vector);
}

/// Flipping the same flags twice gives back the set.
pub proof fn lemma_toggle_twice(bits: u32, other: u32)
    ensures
        (bits ^ other) ^ other == bits,
{
    assert((bits ^ other) ^ other == bits) by (bit_vector);
}

/// A set contains every set whose flags it holds, and itself.
pub proof fn lemma_contains_self(bits: u32)
    ensures
        bits & bits == bits,
{
    assert(bits & bits == bits) by (bit_vector);
}

} // verus!
