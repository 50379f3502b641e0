use vstd::prelude::*;
use crate::field::FieldElement;

verus! {

/// DER tag of a sequence.
pub const DER_SEQUENCE: u8 = 0x30;

/// DER tag of an integer.
pub const DER_INTEGER: u8 = 0x02;

/// A DER integer of at most 33 bytes, as a 32-byte big-endian scalar: a
/// 33-byte integer drops its sign byte, which must be zero; a shorter one is
/// padded with zeros in front.
pub open spec fn scalar_fits(b: Seq<u8>) -> bool {
    1 <= b.len() <= 33 && (b.len() == 33 ==> b[0] == 0)
}

pub open spec fn scalar_of(b: Seq<u8>) -> Seq<u8> {
    if b.len() == 33 {
        b.subrange(1, 33)
    } else {
        Seq::new((32 - b.len()) as nat, |i: int| 0u8) + b
    }
}

/// Length of the `r` integer in a DER signature.
pub open spec fn r_len(sig: Seq<u8>) -> int {
    sig[3] as int
}

/// Length of the `s` integer in a DER signature.
pub open spec fn s_len(sig: Seq<u8>) -> int {
    sig[5 + r_len(sig)] as int
}

pub open spec fn r_bytes(sig: Seq<u8>) -> Seq<u8> {
    sig.subrange(4, 4 + r_len(sig))
}

pub open spec fn s_bytes(sig: Seq<u8>) -> Seq<u8> {
    sig.subrange(6 + r_len(sig), 6 + r_len(sig) + s_len(sig))
}

/// `sig` starts with a DER sequence of two integers that fit a scalar.
pub open spec fn der_signature_valid(sig: Seq<u8>) -> bool {
    &&& sig.len() >= 6
    &&& sig[0] == DER_SEQUENCE
    &&& sig[2] == DER_INTEGER
    &&& 6 + r_len(sig) <= sig.len()
    &&& sig[4 + r_len(sig)] == DER_INTEGER
    &&& 6 + r_len(sig) + s_len(sig) <= sig.len()
    &&& scalar_fits(r_bytes(sig))
    &&& scalar_fits(s_bytes(sig))
}

/// Copies the DER integer at `sig[at..at + len]` into a 32-byte scalar.
fn read_scalar(sig: &[u8], at: usize, len: usize) -> (r: FieldElement)
    requires
        at + len <= sig.len(),
        scalar_fits(sig@.subrange(at as int, at + len)),
    ensures
        r.value@ == scalar_of(sig@.subrange(at as int, at + len)),
{
    let ghost b = sig@.subrange(at as int, at + len);
    let mut value = [0u8; 32];
    let (from, skip): (usize, usize) = if len == 33 {
        (at + 1, 0)
    } else {
        (at, 32 - len)
    };
    let count: usize = len - (if len == 33 { 1usize } else { 0usize });
    let mut i: usize = 0;
    while i < count
        invariant
            b == sig@.subrange(at as int, at + len),
            at + len <= sig.len(),
            scalar_fits(b),
            count == (if len == 33 { 32 } else { len as int }),
            from == (if len == 33 { at + 1 } else { at as int }),
            skip == (if len == 33 { 0 } else { 32 - len }),
            i <= count,
            value@.len() == 32,
            forall|k: int| 0 <= k < skip ==> value@[k] == 0u8,
            forall|k: int| skip <= k < skip + i ==> #[trigger] value@[k] == sig@[from + k - skip],
        decreases count - i,
    {
        value[skip + i] = sig[from + i];
        i = i + 1;
    }
    assert(value@ =~= scalar_of(b));
    FieldElement { value }
}

/// Reads `r` and `s` out of a DER-encoded ECDSA signature.
pub fn der_signature_parts(sig: &[u8]) -> (r: Option<(FieldElement, FieldElement)>)
    ensures
        r is Some <==> der_signature_valid(sig@),
        r is Some ==> ({
            let (rr, ss) = r->0;
            rr.value@ == scalar_of(r_bytes(sig@)) && ss.value@ == scalar_of(s_bytes(sig@))
        }),
{
    if sig.len() < 6 || sig[0] != DER_SEQUENCE || sig[2] != DER_INTEGER {
        return None;
    }
    let rl = sig[3] as usize;
    if 6 + rl > sig.len() || sig[4 + rl] != DER_INTEGER {
        return None;
    }
    let sl = sig[5 + rl] as usize;
    if 6 + rl + sl > sig.len() {
        return None;
    }
    if rl < 1 || rl > 33 || (rl == 33 && sig[4] != 0) {
        return None;
    }
    let s_at = 6 + rl;
    if sl < 1 || sl > 33 || (sl == 33 && sig[s_at] != 0) {
        return None;
    }
    let r = read_scalar(sig, 4, rl);
    let s = read_scalar(sig, s_at, sl);
    Some((r, s))
}

} // verus!
