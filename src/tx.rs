use vstd::prelude::*;
use crate::error::Error;
use crate::field::{FieldElement, FIELD_BYTES, encode_u64};
use crate::path::be_u32;
use crate::buffer::Buffer;

verus! {

/// Most call descriptors one transaction may declare.
pub const MAX_CALL_ARRAY_LEN: usize = 8;

/// Most calldata entries one transaction may declare.
pub const MAX_CALLDATA_LEN: usize = 64;

/// Most elements waiting to be folded at one time: one call descriptor and
/// the closing elements.
pub const MAX_PENDING: usize = 7;

/// Size of the fixed-fields message: five field elements.
pub const FIELDS_BYTES: usize = 160;

/// Size of the lengths message: two big-endian 32-bit counts.
pub const LENGTHS_BYTES: usize = 8;

/// Size of one call-descriptor message: four field elements.
pub const CALL_BYTES: usize = 128;

/// The fixed fields of a transaction.
#[derive(Clone, Copy, Debug, PartialEq, Eq)]
pub struct TxFields {
    pub sender: FieldElement,
    pub max_fee: FieldElement,
    pub nonce: FieldElement,
    pub chain_id: FieldElement,
    pub version: FieldElement,
}

/// One invocation within the transaction's call array.
#[derive(Clone, Copy, Debug, PartialEq, Eq)]
pub struct CallDescriptor {
    pub target: FieldElement,
    pub selector: FieldElement,
    pub data_offset: FieldElement,
    pub data_len: FieldElement,
}

/// Where the assembler stands in the ordered message sequence.
#[derive(Clone, Copy, Debug, PartialEq, Eq, Structural)]
pub enum Phase {
    /// Waiting for the fixed-fields message.
    AwaitFields,
    /// Waiting for the lengths message.
    AwaitLengths,
    /// Taking call descriptors, then calldata entries.
    Collecting,
    /// A calldata entry waits for the user's decision.
    Reviewing,
    /// Every fragment is in; the commitment is completed and then signed.
    Signing,
    /// The signature was emitted; nothing more is accepted.
    Done,
    /// The user rejected an entry, or the review failed.
    Aborted,
}

/// What the user answered to a review.
#[derive(Clone, Copy, Debug, PartialEq, Eq, Structural)]
pub enum Decision {
    Accepted,
    Rejected,
    Failed,
}

/// What a user's decision means for the request under review.
pub open spec fn decision_outcome(d: Decision) -> Result<(), Error> {
    match d {
        Decision::Accepted => Ok(()),
        Decision::Rejected => Err(Error::UserCancelled),
        Decision::Failed => Err(Error::UnspecifiedFailure),
    }
}

impl Decision {
    /// Acceptance lets the request go on; a rejection cancels it; a failed
    /// review is an unspecified failure.
    pub fn outcome(self) -> (r: Result<(), Error>)
        ensures
            r == decision_outcome(self),
    {
        match self {
            Decision::Accepted => Ok(()),
            Decision::Rejected => Err(Error::UserCancelled),
            Decision::Failed => Err(Error::UnspecifiedFailure),
        }
    }
}

/// The outside work the assembler waits for.
#[derive(Clone, Copy, Debug, PartialEq, Eq)]
pub enum Action {
    /// Nothing: the next message may come.
    Idle,
    /// Compute the domain hash of the accumulator and the next element.
    Hash(FieldElement, FieldElement),
    /// Show this calldata entry to the user for a decision.
    Review(FieldElement),
    /// Sign this commitment hash.
    Sign(FieldElement),
}

/// The abstract state of the assembler.
pub struct AssemblerView {
    pub phase: Phase,
    pub fields: TxFields,
    pub call_array: Seq<CallDescriptor>,
    pub call_array_len: nat,
    pub calldata: Seq<FieldElement>,
    pub calldata_len: nat,
    pub review: FieldElement,
    pub acc: FieldElement,
    pub pending: Seq<FieldElement>,
    pub committed: Seq<FieldElement>,
}

/// The fixed fields in the order they are committed.
pub open spec fn fields_seq(f: TxFields) -> Seq<FieldElement> {
    seq![f.sender, f.max_fee, f.nonce, f.chain_id, f.version]
}

/// One call descriptor in the order its parts are committed.
pub open spec fn call_seq(d: CallDescriptor) -> Seq<FieldElement> {
    seq![d.target, d.selector, d.data_offset, d.data_len]
}

/// The call descriptors, flattened in index order.
pub open spec fn calls_seq(s: Seq<CallDescriptor>) -> Seq<FieldElement>
    decreases s.len(),
{
    if s.len() == 0 {
        Seq::empty()
    } else {
        calls_seq(s.drop_last()) + call_seq(s.last())
    }
}

/// How many elements a complete transaction commits, its three closing
/// elements included.
pub open spec fn element_count(call_array_len: nat, calldata_len: nat) -> nat {
    5 + 4 * call_array_len + calldata_len + 3
}

/// The closing elements: both declared lengths, then the element count.
pub open spec fn is_trailer(t: Seq<FieldElement>, call_array_len: nat, calldata_len: nat) -> bool {
    &&& t.len() == 3
    &&& t[0].value@ == encode_u64(call_array_len as u64)
    &&& t[1].value@ == encode_u64(calldata_len as u64)
    &&& t[2].value@ == encode_u64(element_count(call_array_len, calldata_len) as u64)
}

/// `f` holds the five 32-byte elements of a fixed-fields payload.
pub open spec fn fields_encoded(f: TxFields, data: Seq<u8>) -> bool {
    &&& f.sender.value@ == data.subrange(0, 32)
    &&& f.max_fee.value@ == data.subrange(32, 64)
    &&& f.nonce.value@ == data.subrange(64, 96)
    &&& f.chain_id.value@ == data.subrange(96, 128)
    &&& f.version.value@ == data.subrange(128, 160)
}

/// `d` holds the four 32-byte elements of a call-descriptor payload.
pub open spec fn call_encoded(d: CallDescriptor, data: Seq<u8>) -> bool {
    &&& d.target.value@ == data.subrange(0, 32)
    &&& d.selector.value@ == data.subrange(32, 64)
    &&& d.data_offset.value@ == data.subrange(64, 96)
    &&& d.data_len.value@ == data.subrange(96, 128)
}

impl AssemblerView {
    /// Every declared descriptor and entry has been received and accepted.
    pub open spec fn complete(self) -> bool {
        self.call_array.len() == self.call_array_len && self.calldata.len() == self.calldata_len
    }

    /// No outside work is outstanding and a fragment may come.
    pub open spec fn ready(self) -> bool {
        self.pending.len() == 0
    }

    /// The elements taken in so far, in commitment order, closing elements excluded.
    pub open spec fn body(self) -> Seq<FieldElement> {
        if self.phase == Phase::AwaitFields {
            Seq::empty()
        } else {
            fields_seq(self.fields) + calls_seq(self.call_array) + self.calldata
        }
    }

    /// The closing elements belong to the commitment once every fragment is in.
    pub open spec fn closed(self) -> bool {
        self.phase == Phase::Signing || self.phase == Phase::Done
    }

    /// The elements folded so far and those waiting to be folded are, in
    /// order, the body and, once closed, the closing elements.
    pub open spec fn commitment_consistent(self) -> bool {
        let all = self.committed + self.pending;
        let b = self.body();
        if self.closed() {
            &&& all.len() == b.len() + 3
            &&& all.subrange(0, b.len() as int) == b
            &&& is_trailer(all.subrange(b.len() as int, all.len() as int), self.call_array_len, self.calldata_len)
        } else {
            all == b
        }
    }

    pub open spec fn wf(self) -> bool {
        &&& self.call_array_len <= MAX_CALL_ARRAY_LEN
        &&& self.calldata_len <= MAX_CALLDATA_LEN
        &&& self.call_array.len() <= self.call_array_len
        &&& self.calldata.len() <= self.calldata_len
        &&& self.pending.len() <= MAX_PENDING
        &&& self.calldata.len() > 0 ==> self.call_array.len() == self.call_array_len
        &&& (self.phase == Phase::AwaitFields || self.phase == Phase::AwaitLengths) ==> {
            &&& self.call_array_len == 0
            &&& self.calldata_len == 0
        }
        &&& self.phase == Phase::Collecting ==> !self.complete()
        &&& self.phase == Phase::Reviewing ==> {
            &&& self.call_array.len() == self.call_array_len
            &&& self.calldata.len() < self.calldata_len
            &&& self.pending.len() == 0
        }
        &&& self.closed() ==> self.complete()
        &&& self.phase == Phase::Done ==> self.pending.len() == 0
        &&& self.phase != Phase::Aborted ==> self.commitment_consistent()
    }

    /// `next` is this state after it took the fixed fields in `data`: they
    /// are stored and queued for folding.
    pub open spec fn fields_taken(self, next: AssemblerView, data: Seq<u8>) -> bool {
        &&& fields_encoded(next.fields, data)
        &&& next == (AssemblerView {
            phase: Phase::AwaitLengths,
            fields: next.fields,
            pending: fields_seq(next.fields),
            ..self
        })
    }

    /// `next` is this state after it took the lengths in `data`. Where both
    /// are zero the transaction is complete and its closing elements are queued.
    pub open spec fn lengths_taken(self, next: AssemblerView, data: Seq<u8>) -> bool {
        let cal = be_u32(data, 0) as nat;
        let cdl = be_u32(data, 4) as nat;
        let empty = cal == 0 && cdl == 0;
        &&& next == (AssemblerView {
            phase: if empty { Phase::Signing } else { Phase::Collecting },
            call_array_len: cal,
            calldata_len: cdl,
            pending: next.pending,
            ..self
        })
        &&& empty ==> is_trailer(next.pending, 0, 0)
        &&& !empty ==> next.pending.len() == 0
    }

    /// `next` is this state after it took the call descriptor with index
    /// `i` in `data`: it is stored and its four elements are queued, then the
    /// closing elements where it completes the transaction.
    pub open spec fn call_taken(self, next: AssemblerView, i: nat, data: Seq<u8>) -> bool {
        let d = next.call_array.last();
        let done = i + 1 == self.call_array_len && self.calldata_len == 0;
        &&& call_encoded(d, data)
        &&& next == (AssemblerView {
            phase: if done { Phase::Signing } else { Phase::Collecting },
            call_array: self.call_array.push(d),
            pending: next.pending,
            ..self
        })
        &&& next.pending.len() >= 4
        &&& next.pending.subrange(0, 4) == call_seq(d)
        &&& done ==> next.pending.len() == 7 && is_trailer(
            next.pending.subrange(4, 7),
            self.call_array_len,
            self.calldata_len,
        )
        &&& !done ==> next.pending.len() == 4
    }

    /// `next` is this state after it took the calldata entry in `data`: the
    /// entry waits for review and nothing else changes.
    pub open spec fn calldata_taken(self, next: AssemblerView, data: Seq<u8>) -> bool {
        &&& next.review.value@ == data
        &&& next == (AssemblerView { phase: Phase::Reviewing, review: next.review, ..self })
    }

    /// The outside work this state waits for.
    pub open spec fn action(self) -> Action {
        if self.pending.len() > 0 {
            Action::Hash(self.acc, self.pending[0])
        } else if self.phase == Phase::Reviewing {
            Action::Review(self.review)
        } else if self.phase == Phase::Signing {
            Action::Sign(self.acc)
        } else {
            Action::Idle
        }
    }

    /// What a fixed-fields message of `len` bytes gets.
    pub open spec fn fields_check(self, len: nat) -> Result<(), Error> {
        if !(self.phase == Phase::AwaitFields && self.ready()) {
            Err(Error::IndexOutOfOrder)
        } else if len != FIELDS_BYTES {
            Err(Error::MalformedData)
        } else {
            Ok(())
        }
    }

    /// What a lengths message gets.
    pub open spec fn lengths_check(self, data: Seq<u8>) -> Result<(), Error> {
        if !(self.phase == Phase::AwaitLengths && self.ready()) {
            Err(Error::IndexOutOfOrder)
        } else if data.len() != LENGTHS_BYTES {
            Err(Error::MalformedData)
        } else if be_u32(data, 0) > MAX_CALL_ARRAY_LEN || be_u32(data, 4) > MAX_CALLDATA_LEN {
            Err(Error::CapacityExceeded)
        } else {
            Ok(())
        }
    }

    /// What the call-descriptor message with index `i` and `len` bytes gets.
    pub open spec fn call_check(self, i: nat, len: nat) -> Result<(), Error> {
        if !(self.phase == Phase::Collecting && self.ready()) {
            Err(Error::IndexOutOfOrder)
        } else if i >= self.call_array_len {
            Err(Error::IndexOutOfRange)
        } else if i != self.call_array.len() {
            Err(Error::IndexOutOfOrder)
        } else if len != CALL_BYTES {
            Err(Error::MalformedData)
        } else {
            Ok(())
        }
    }

    /// What the calldata message with index `i` and `len` bytes gets.
    pub open spec fn calldata_check(self, i: nat, len: nat) -> Result<(), Error> {
        if !(self.phase == Phase::Collecting && self.ready()) {
            Err(Error::IndexOutOfOrder)
        } else if i >= self.calldata_len {
            Err(Error::IndexOutOfRange)
        } else if self.call_array.len() != self.call_array_len || i != self.calldata.len() {
            Err(Error::IndexOutOfOrder)
        } else if len != FIELD_BYTES {
            Err(Error::MalformedData)
        } else {
            Ok(())
        }
    }
}

/// Two descriptor sequences flatten in step with one more descriptor.
proof fn lemma_calls_seq_push(s: Seq<CallDescriptor>, d: CallDescriptor)
    ensures
        calls_seq(s.push(d)) == calls_seq(s) + call_seq(d),
{
    assert(s.push(d).drop_last() =~= s);
}

/// The transaction assembler: the `tx_state` of a signing session.
pub struct Assembler {
    pub phase: Phase,
    pub fields: TxFields,
    pub call_array: Buffer<CallDescriptor, MAX_CALL_ARRAY_LEN>,
    pub call_array_len: usize,
    pub calldata: Buffer<FieldElement, MAX_CALLDATA_LEN>,
    pub calldata_len: usize,
    pub review: FieldElement,
    pub acc: FieldElement,
    pub pending: Buffer<FieldElement, MAX_PENDING>,
    pub committed: Ghost<Seq<FieldElement>>,
}

impl View for Assembler {
    type V = AssemblerView;

    open spec fn view(&self) -> AssemblerView {
        AssemblerView {
            phase: self.phase,
            fields: self.fields,
            call_array: self.call_array@,
            call_array_len: self.call_array_len as nat,
            calldata: self.calldata@,
            calldata_len: self.calldata_len as nat,
            review: self.review,
            acc: self.acc,
            pending: self.pending@,
            committed: self.committed@,
        }
    }
}

/// Appends the closing elements of a transaction to `p`.
fn push_trailer(p: &mut Buffer<FieldElement, MAX_PENDING>, call_array_len: usize, calldata_len: usize)
    requires
        old(p)@.len() + 3 <= MAX_PENDING,
        call_array_len <= MAX_CALL_ARRAY_LEN,
        calldata_len <= MAX_CALLDATA_LEN,
    ensures
        final(p)@.len() == old(p)@.len() + 3,
        final(p)@.subrange(0, old(p)@.len() as int) == old(p)@,
        is_trailer(
            final(p)@.subrange(old(p)@.len() as int, final(p)@.len() as int),
            call_array_len as nat,
            calldata_len as nat,
        ),
{
    let count: u64 = (5 + 4 * call_array_len + calldata_len + 3) as u64;
    p.push(FieldElement::from_u64(call_array_len as u64));
    p.push(FieldElement::from_u64(calldata_len as u64));
    p.push(FieldElement::from_u64(count));
    assert(final(p)@.subrange(0, old(p)@.len() as int) =~= old(p)@);
}

impl Assembler {
    /// A fresh assembler, waiting for the fixed fields, with a zero accumulator.
    pub fn new() -> (r: Assembler)
        ensures
            r@.wf(),
            r@.phase == Phase::AwaitFields,
            r@.call_array.len() == 0,
            r@.call_array_len == 0,
            r@.calldata.len() == 0,
            r@.calldata_len == 0,
            r@.pending.len() == 0,
            r@.committed.len() == 0,
            r@.acc.value@ == Seq::new(32, |i: int| 0u8),
    {
        let z = FieldElement::zero();
        let r = Assembler {
            phase: Phase::AwaitFields,
            fields: TxFields { sender: z, max_fee: z, nonce: z, chain_id: z, version: z },
            call_array: Buffer::new(CallDescriptor { target: z, selector: z, data_offset: z, data_len: z }),
            call_array_len: 0,
            calldata: Buffer::new(z),
            calldata_len: 0,
            review: z,
            acc: z,
            pending: Buffer::new(z),
            committed: Ghost(Seq::empty()),
        };
        assert(r@.committed + r@.pending =~= r@.body());
        r
    }

    /// The outside work this assembler waits for.
    pub fn next_action(&self) -> (r: Action)
        ensures
            r == self@.action(),
    {
        if self.pending.len() > 0 {
            Action::Hash(self.acc, self.pending.get(0))
        } else {
            match self.phase {
                Phase::Reviewing => Action::Review(self.review),
                Phase::Signing => Action::Sign(self.acc),
                _ => Action::Idle,
            }
        }
    }

    /// Takes the domain hash of the accumulator and the next pending element:
    /// it becomes the accumulator and that element counts as folded.
    pub fn hash_result(&mut self, h: FieldElement) -> (r: Result<(), Error>)
        requires
            old(self)@.wf(),
        ensures
            final(self)@.wf(),
            r is Ok <==> old(self)@.pending.len() > 0,
            r is Err ==> r->Err_0 == Error::IndexOutOfOrder && final(self)@ == old(self)@,
            r is Ok ==> final(self)@ == (AssemblerView {
                acc: h,
                pending: old(self)@.pending.drop_first(),
                committed: old(self)@.committed.push(old(self)@.pending[0]),
                ..old(self)@
            }),
    {
        if self.pending.len() == 0 {
            return Err(Error::IndexOutOfOrder);
        }
        let ghost before = self@;
        let e = self.pending.pop_front();
        self.acc = h;
        self.committed = Ghost(self.committed@.push(e));
        assert(self@.pending =~= before.pending.drop_first());
        assert(self@.committed + self@.pending =~= before.committed + before.pending);
        Ok(())
    }

    /// Records that the signature over the completed commitment was emitted.
    pub fn finish(&mut self) -> (r: Result<(), Error>)
        requires
            old(self)@.wf(),
        ensures
            final(self)@.wf(),
            r is Ok <==> old(self)@.action() is Sign,
            r is Err ==> r->Err_0 == Error::IndexOutOfOrder && final(self)@ == old(self)@,
            r is Ok ==> final(self)@ == (AssemblerView { phase: Phase::Done, ..old(self)@ }),
    {
        if self.pending.len() != 0 || self.phase != Phase::Signing {
            return Err(Error::IndexOutOfOrder);
        }
        self.phase = Phase::Done;
        Ok(())
    }

    /// Takes the fixed-fields message and queues its five elements for folding.
    pub fn set_fields(&mut self, data: &[u8]) -> (r: Result<(), Error>)
        requires
            old(self)@.wf(),
        ensures
            final(self)@.wf(),
            r == old(self)@.fields_check(data@.len()),
            r is Err ==> final(self)@ == old(self)@,
            r is Ok ==> old(self)@.fields_taken(final(self)@, data@),
    {
        if !(self.phase == Phase::AwaitFields && self.pending.len() == 0) {
            return Err(Error::IndexOutOfOrder);
        }
        if data.len() != FIELDS_BYTES {
            return Err(Error::MalformedData);
        }
        let f = TxFields {
            sender: FieldElement::read_at(data, 0),
            max_fee: FieldElement::read_at(data, 32),
            nonce: FieldElement::read_at(data, 64),
            chain_id: FieldElement::read_at(data, 96),
            version: FieldElement::read_at(data, 128),
        };
        self.pending.clear();
        self.pending.push(f.sender);
        self.pending.push(f.max_fee);
        self.pending.push(f.nonce);
        self.pending.push(f.chain_id);
        self.pending.push(f.version);
        self.fields = f;
        self.phase = Phase::AwaitLengths;
        assert(self@.pending =~= fields_seq(f));
        assert(calls_seq(self@.call_array) =~= Seq::<FieldElement>::empty());
        assert(self@.committed + self@.pending =~= self@.body());
        Ok(())
    }

    /// Takes the lengths message. Where both lengths are zero the transaction
    /// is complete at once and its closing elements are queued.
    pub fn set_lengths(&mut self, data: &[u8]) -> (r: Result<(), Error>)
        requires
            old(self)@.wf(),
        ensures
            final(self)@.wf(),
            r == old(self)@.lengths_check(data@),
            r is Err ==> final(self)@ == old(self)@,
            r is Ok ==> old(self)@.lengths_taken(final(self)@, data@),
    {
        if !(self.phase == Phase::AwaitLengths && self.pending.len() == 0) {
            return Err(Error::IndexOutOfOrder);
        }
        if data.len() != LENGTHS_BYTES {
            return Err(Error::MalformedData);
        }
        let cal = crate::path::read_u32_be(data, 0);
        let cdl = crate::path::read_u32_be(data, 4);
        if cal as usize > MAX_CALL_ARRAY_LEN || cdl as usize > MAX_CALLDATA_LEN {
            return Err(Error::CapacityExceeded);
        }
        let ghost before = self@;
        self.call_array_len = cal as usize;
        self.calldata_len = cdl as usize;
        assert(calls_seq(self@.call_array) =~= Seq::<FieldElement>::empty());
        if cal == 0 && cdl == 0 {
            push_trailer(&mut self.pending, 0, 0);
            self.phase = Phase::Signing;
            assert(before.pending.len() == 0);
            assert(self@.pending.subrange(0, 3) =~= self@.pending);
            assert(self@.committed =~= self@.body());
            let ghost all = self@.committed + self@.pending;
            let ghost b = self@.body();
            assert(all.subrange(0, b.len() as int) =~= b);
            assert(all.subrange(b.len() as int, all.len() as int) =~= self@.pending);
        } else {
            self.phase = Phase::Collecting;
        }
        Ok(())
    }

    /// Takes the call descriptor with index `index` and queues its four
    /// elements for folding; where it completes the transaction, the closing
    /// elements follow them.
    pub fn add_call(&mut self, index: usize, data: &[u8]) -> (r: Result<(), Error>)
        requires
            old(self)@.wf(),
        ensures
            final(self)@.wf(),
            r == old(self)@.call_check(index as nat, data@.len()),
            r is Err ==> final(self)@ == old(self)@,
            r is Ok ==> old(self)@.call_taken(final(self)@, index as nat, data@),
    {
        if !(self.phase == Phase::Collecting && self.pending.len() == 0) {
            return Err(Error::IndexOutOfOrder);
        }
        if index >= self.call_array_len {
            return Err(Error::IndexOutOfRange);
        }
        if index != self.call_array.len() {
            return Err(Error::IndexOutOfOrder);
        }
        if data.len() != CALL_BYTES {
            return Err(Error::MalformedData);
        }
        let ghost before = self@;
        let d = CallDescriptor {
            target: FieldElement::read_at(data, 0),
            selector: FieldElement::read_at(data, 32),
            data_offset: FieldElement::read_at(data, 64),
            data_len: FieldElement::read_at(data, 96),
        };
        self.pending.clear();
        self.pending.push(d.target);
        self.pending.push(d.selector);
        self.pending.push(d.data_offset);
        self.pending.push(d.data_len);
        assert(self.pending@ =~= call_seq(d));
        self.call_array.push(d);
        assert(self@.call_array.last() == d);
        proof {
            lemma_calls_seq_push(before.call_array, d);
            assert(before.calldata.len() == 0);
            assert(self@.body() =~= before.body() + call_seq(d));
        }
        let done = index + 1 == self.call_array_len && self.calldata_len == 0;
        if done {
            push_trailer(&mut self.pending, self.call_array_len, self.calldata_len);
            self.phase = Phase::Signing;
            proof {
                let all = self@.committed + self@.pending;
                let b = self@.body();
                assert(all.subrange(0, b.len() as int) =~= b);
                assert(all.subrange(b.len() as int, all.len() as int) =~= self@.pending.subrange(4, 7));
            }
        } else {
            assert(self@.committed + self@.pending =~= self@.body());
            assert(self@.pending.subrange(0, 4) =~= call_seq(d));
        }
        Ok(())
    }

    /// Takes the calldata entry with index `index` and holds it for review.
    /// Nothing is folded until the user accepts it.
    pub fn add_calldata(&mut self, index: usize, data: &[u8]) -> (r: Result<(), Error>)
        requires
            old(self)@.wf(),
        ensures
            final(self)@.wf(),
            r == old(self)@.calldata_check(index as nat, data@.len()),
            r is Err ==> final(self)@ == old(self)@,
            r is Ok ==> old(self)@.calldata_taken(final(self)@, data@),
    {
        if !(self.phase == Phase::Collecting && self.pending.len() == 0) {
            return Err(Error::IndexOutOfOrder);
        }
        if index >= self.calldata_len {
            return Err(Error::IndexOutOfRange);
        }
        if self.call_array.len() != self.call_array_len || index != self.calldata.len() {
            return Err(Error::IndexOutOfOrder);
        }
        if data.len() != FIELD_BYTES {
            return Err(Error::MalformedData);
        }
        self.review = FieldElement::read_at(data, 0);
        self.phase = Phase::Reviewing;
        assert(data@.subrange(0, FIELD_BYTES as int) =~= data@);
        Ok(())
    }

    /// Takes the user's decision on the entry under review. On acceptance the
    /// entry is queued for folding, followed by the closing elements where it
    /// is the last one; otherwise the request is aborted and the commitment
    /// stays as it was.
    pub fn review_decision(&mut self, decision: Decision) -> (r: Result<(), Error>)
        requires
            old(self)@.wf(),
        ensures
            final(self)@.wf(),
            old(self)@.phase != Phase::Reviewing ==> r == Err::<(), Error>(Error::IndexOutOfOrder)
                && final(self)@ == old(self)@,
            old(self)@.phase == Phase::Reviewing ==> match decision {
                Decision::Accepted => {
                    let e = old(self)@.review;
                    let done = old(self)@.calldata.len() + 1 == old(self)@.calldata_len;
                    &&& r is Ok
                    &&& final(self)@ == (AssemblerView {
                        phase: if done { Phase::Signing } else { Phase::Collecting },
                        calldata: old(self)@.calldata.push(e),
                        pending: final(self)@.pending,
                        ..old(self)@
                    })
                    &&& final(self)@.pending[0] == e
                    &&& done ==> final(self)@.pending.len() == 4 && is_trailer(
                        final(self)@.pending.subrange(1, 4),
                        old(self)@.call_array_len,
                        old(self)@.calldata_len,
                    )
                    &&& !done ==> final(self)@.pending.len() == 1
                },
                Decision::Rejected => r == Err::<(), Error>(Error::UserCancelled)
                    && final(self)@ == (AssemblerView { phase: Phase::Aborted, ..old(self)@ }),
                Decision::Failed => r == Err::<(), Error>(Error::UnspecifiedFailure)
                    && final(self)@ == (AssemblerView { phase: Phase::Aborted, ..old(self)@ }),
            },
    {
        if self.phase != Phase::Reviewing {
            return Err(Error::IndexOutOfOrder);
        }
        match decision {
            Decision::Rejected => {
                self.phase = Phase::Aborted;
                return Err(Error::UserCancelled);
            },
            Decision::Failed => {
                self.phase = Phase::Aborted;
                return Err(Error::UnspecifiedFailure);
            },
            Decision::Accepted => {},
        }
        let ghost before = self@;
        let e = self.review;
        self.calldata.push(e);
        self.pending.clear();
        self.pending.push(e);
        assert(self@.body() =~= before.body().push(e));
        assert(before.committed =~= before.body());
        if self.calldata.len() == self.calldata_len {
            push_trailer(&mut self.pending, self.call_array_len, self.calldata_len);
            assert(self.pending@[0] == self.pending@.subrange(0, 1)[0]);
            self.phase = Phase::Signing;
            proof {
                let all = self@.committed + self@.pending;
                let b = self@.body();
                assert(all.subrange(0, b.len() as int) =~= b);
                assert(all.subrange(b.len() as int, all.len() as int) =~= self@.pending.subrange(1, 4));
            }
        } else {
            self.phase = Phase::Collecting;
            assert(self@.committed + self@.pending =~= self@.body());
        }
        Ok(())
    }
}

} // verus!
