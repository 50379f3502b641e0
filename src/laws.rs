use vstd::prelude::*;
use crate::error::Error;
use crate::tx::{Action, AssemblerView, Phase, calls_seq, fields_seq, is_trailer};

verus! {

/// A call descriptor whose index is not the next one in sequence (a skip,
/// a repeat or a step back) is refused as out of order or out of range.
/// The assembler's methods leave the state unchanged on every refusal.
pub proof fn lemma_call_index_in_sequence(v: AssemblerView, i: nat, len: nat)
    requires
        v.wf(),
        i != v.call_array.len(),
    ensures
        v.call_check(i, len) == Err::<(), Error>(Error::IndexOutOfOrder)
            || v.call_check(i, len) == Err::<(), Error>(Error::IndexOutOfRange),
{
}

/// A calldata entry whose index is not the next one in sequence is refused
/// as out of order or out of range.
pub proof fn lemma_calldata_index_in_sequence(v: AssemblerView, i: nat, len: nat)
    requires
        v.wf(),
        i != v.calldata.len(),
    ensures
        v.calldata_check(i, len) == Err::<(), Error>(Error::IndexOutOfOrder)
            || v.calldata_check(i, len) == Err::<(), Error>(Error::IndexOutOfRange),
{
}

/// While fewer call descriptors than declared have come, the assembler
/// neither asks for a signature nor takes a calldata entry.
pub proof fn lemma_no_signing_before_all_calls(v: AssemblerView)
    requires
        v.wf(),
        v.call_array.len() < v.call_array_len,
    ensures
        !(v.action() is Sign),
        v.phase != Phase::Signing,
        v.phase != Phase::Done,
        forall|i: nat, len: nat| v.calldata_check(i, len) is Err,
{
}

/// Once the signature was emitted, no fragment, review or hash result is
/// taken and no further signature is asked for.
pub proof fn lemma_signed_at_most_once(v: AssemblerView)
    requires
        v.wf(),
        v.phase == Phase::Done,
    ensures
        v.action() == Action::Idle,
        forall|len: nat| v.fields_check(len) is Err,
        forall|data: Seq<u8>| v.lengths_check(data) is Err,
        forall|i: nat, len: nat| v.call_check(i, len) is Err,
        forall|i: nat, len: nat| v.calldata_check(i, len) is Err,
{
}

/// After a rejected or failed review nothing more is taken and no
/// signature is asked for.
pub proof fn lemma_aborted_never_signs(v: AssemblerView)
    requires
        v.wf(),
        v.phase == Phase::Aborted,
        v.pending.len() == 0,
    ensures
        v.action() == Action::Idle,
        forall|len: nat| v.fields_check(len) is Err,
        forall|data: Seq<u8>| v.lengths_check(data) is Err,
        forall|i: nat, len: nat| v.call_check(i, len) is Err,
        forall|i: nat, len: nat| v.calldata_check(i, len) is Err,
{
}

/// When a signature is asked for, the accumulator has folded exactly the
/// transaction's elements in order (fixed fields, call descriptors,
/// calldata entries) followed by both declared lengths and the element count.
pub proof fn lemma_signed_commitment_covers_transaction(v: AssemblerView)
    requires
        v.wf(),
        v.action() is Sign,
    ensures
        v.complete(),
        ({
            let b = fields_seq(v.fields) + calls_seq(v.call_array) + v.calldata;
            &&& v.committed.len() == b.len() + 3
            &&& v.committed.subrange(0, b.len() as int) == b
            &&& is_trailer(v.committed.subrange(b.len() as int, v.committed.len() as int), v.call_array_len, v.calldata_len)
        }),
        v.action() == Action::Sign(v.acc),
{
    assert(v.committed + v.pending =~= v.committed);
}

/// Once every fragment is in, the assembler asks only for hashes of the
/// remaining elements and then for the signature; it waits on no message.
pub proof fn lemma_complete_transaction_reaches_signature(v: AssemblerView)
    requires
        v.wf(),
        v.phase == Phase::Signing,
    ensures
        v.pending.len() > 0 ==> v.action() == Action::Hash(v.acc, v.pending[0]),
        v.pending.len() == 0 ==> v.action() == Action::Sign(v.acc),
        forall|i: nat, len: nat| v.calldata_check(i, len) is Err,
        forall|i: nat, len: nat| v.call_check(i, len) is Err,
{
}

} // verus!
