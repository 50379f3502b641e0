use vstd::prelude::*;

verus! {

/// Width in bytes of an encoded field element.
pub const FIELD_BYTES: usize = 32;

/// A field element in its fixed-width big-endian encoding.
#[derive(Clone, Copy, Debug, PartialEq, Eq)]
pub struct FieldElement {
    pub value: [u8; 32],
}

/// Byte `k` (0 = most significant) of the 8-byte big-endian encoding of `n`.
pub open spec fn u64_be_byte(n: u64, k: int) -> u8 {
    ((n >> ((8 * (7 - k)) as u64)) & 0xff) as u8
}

/// The 32-byte big-endian encoding of a 64-bit integer.
pub open spec fn encode_u64(n: u64) -> Seq<u8> {
    Seq::new(32, |i: int| if i < 24 { 0u8 } else { u64_be_byte(n, i - 24) })
}

impl FieldElement {
    /// The element zero.
    pub fn zero() -> (r: FieldElement)
        ensures
            r.value@ == Seq::new(32, |i: int| 0u8),
    {
        let r = FieldElement { value: [0u8; 32] };
        assert(r.value@ =~= Seq::new(32, |i: int| 0u8));
        r
    }

    /// Reads an element from exactly `FIELD_BYTES` bytes.
    pub fn from_slice(s: &[u8]) -> (r: Option<FieldElement>)
        ensures
            r is Some <==> s@.len() == FIELD_BYTES,
            r is Some ==> r->0.value@ == s@,
    {
        if s.len() != FIELD_BYTES {
            return None;
        }
        Some(FieldElement::read_at(s, 0))
    }

    /// Reads the element stored at `s[at..at + FIELD_BYTES]`.
    pub fn read_at(s: &[u8], at: usize) -> (r: FieldElement)
        requires
            at + FIELD_BYTES <= s@.len(),
        ensures
            r.value@ == s@.subrange(at as int, at + FIELD_BYTES),
    {
        let mut value = [0u8; 32];
        let mut i: usize = 0;
        while i < FIELD_BYTES
            invariant
                i <= FIELD_BYTES,
                at + FIELD_BYTES <= s.len(),
                value@.len() == 32,
                forall|k: int| 0 <= k < i ==> value@[k] == s@[at + k],
            decreases FIELD_BYTES - i,
        {
            value[i] = s[at + i];
            i = i + 1;
        }
        assert(value@ =~= s@.subrange(at as int, at + FIELD_BYTES));
        FieldElement { value }
    }

    /// Encodes a 64-bit integer as an element.
    pub fn from_u64(n: u64) -> (r: FieldElement)
        ensures
            r.value@ == encode_u64(n),
    {
        let mut value = [0u8; 32];
        let mut k: usize = 0;
        while k < 8
            invariant
                k <= 8,
                value@.len() == 32,
                forall|j: int| 0 <= j < 24 ==> value@[j] == 0u8,
                forall|j: int| 0 <= j < k ==> value@[24 + j] == u64_be_byte(n, j),
            decreases 8 - k,
        {
            let shift: u64 = (8 * (7 - k)) as u64;
            value[24 + k] = ((n >> shift) & 0xff) as u8;
            k = k + 1;
        }
        assert(value@ =~= encode_u64(n));
        FieldElement { value }
    }
}

} // verus!
