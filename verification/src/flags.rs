//! What every option mask of the engine has in common: a raw `i32` whose bits
//! combine with bitwise-or and are tested with bitwise-and.
use vstd::prelude::*;

verus! {

/// Every flag set in `flags` is also set in `mask`.
pub open spec fn mask_contains(mask: i32, flags: i32) -> bool {
    mask & flags == flags
}

/// A combination contains each of the masks it was made from.
pub proof fn lemma_union_contains_operands(a: i32, b: i32)
    ensures
        mask_contains(a | b, a),
        mask_contains(a | b, b),
{
    assert((a | b) & a == a) by (bit_vector);
    assert((a | b) & b == b) by (bit_vector);
}

/// Every mask contains itself and the empty mask.
pub proof fn lemma_contains_itself_and_nothing(a: i32)
    ensures
        mask_contains(a, a),
        mask_contains(a, 0),
{
    assert(a & a == a) by (bit_vector);
    assert(a & 0 == 0) by (bit_vector);
}

/// Combining with the empty mask changes nothing.
pub proof fn lemma_union_with_nothing(a: i32)
    ensures
        a | 0 == a,
        0 | a == a,
{
    assert(a | 0 == a) by (bit_vector);
    assert(0 | a == a) by (bit_vector);
}

/// A mask contains a combination exactly when it contains each part.
pub proof fn lemma_contains_union_iff(mask: i32, a: i32, b: i32)
    ensures
        mask_contains(mask, a | b) <==> (mask_contains(mask, a) && mask_contains(mask, b)),
{
    assert((mask & (a | b) == (a | b)) <==> ((mask & a == a) && (mask & b == b))) by (bit_vector);
}

} // verus!
