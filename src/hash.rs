use vstd::prelude::*;
use crate::field::FieldElement;

verus! {

/// The four scalars of one domain-hash step. Each operand splits into its
/// low 248 bits and its high bits; the hash is the x-coordinate of the
/// scheme's shift point plus each scalar times its own fixed point, taken in
/// the order `a_low`, `a_high`, `b_low`, `b_high`.
#[derive(Clone, Copy, Debug, PartialEq, Eq)]
pub struct HashTerms {
    pub a_low: FieldElement,
    pub a_high: u8,
    pub b_low: FieldElement,
    pub b_high: u8,
}

/// An operand's low 248 bits, as a 32-byte big-endian scalar.
pub open spec fn low_bits(e: FieldElement) -> Seq<u8> {
    seq![0u8] + e.value@.subrange(1, 32)
}

/// Splits a field element into its low 248 bits and its high bits.
pub fn split_operand(e: &FieldElement) -> (r: (FieldElement, u8))
    ensures
        r.0.value@ == low_bits(*e),
        r.1 == e.value@[0],
{
    let mut low = *e;
    low.value[0] = 0;
    assert(low.value@ =~= low_bits(*e));
    (low, e.value[0])
}

/// The scalars that the domain hash of `a` and `b` multiplies its fixed
/// points with.
pub fn hash_terms(a: &FieldElement, b: &FieldElement) -> (r: HashTerms)
    ensures
        r.a_low.value@ == low_bits(*a),
        r.a_high == a.value@[0],
        r.b_low.value@ == low_bits(*b),
        r.b_high == b.value@[0],
{
    let (a_low, a_high) = split_operand(a);
    let (b_low, b_high) = split_operand(b);
    HashTerms { a_low, a_high, b_low, b_high }
}

} // verus!
