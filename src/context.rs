use vstd::prelude::*;
use crate::error::Error;
use crate::field::{FieldElement, FIELD_BYTES};
use crate::path::{DerivationPath, path_encoding_valid, path_of_encoding};
use crate::tx::{Action, Assembler, AssemblerView, Phase};

verus! {

/// The top-level request a session serves.
#[derive(Clone, Copy, Debug, PartialEq, Eq, Structural)]
pub enum RequestType {
    /// No request is in progress.
    Idle,
    GetPubkey,
    SignHash,
    ComputePedersen,
    SignTransaction,
}

/// The message hash and the signature over it.
#[derive(Clone, Copy, Debug, PartialEq, Eq)]
pub struct HashInfo {
    pub m_hash: FieldElement,
    pub r: FieldElement,
    pub s: FieldElement,
    pub v: u8,
}

/// First byte of a signature reply.
pub const SIGNATURE_TAG: u8 = 0x41;

/// Size of a signature reply: tag, `r`, `s` and recovery id.
pub const SIGNATURE_REPLY_BYTES: usize = 66;

/// Subcommand of a transaction message carrying the fixed fields.
pub const TX_FIELDS: u8 = 1;

/// Subcommand of a transaction message carrying the lengths.
pub const TX_LENGTHS: u8 = 2;

/// Subcommand of a transaction message carrying a call descriptor.
pub const TX_CALL: u8 = 3;

/// Subcommand of a transaction message carrying a calldata entry.
pub const TX_CALLDATA: u8 = 4;

/// What a transaction fragment with subcommand `sub` and index `index` gets
/// from an assembler in state `v`. Subcommands other than the four
/// fragment kinds are ignored.
pub open spec fn tx_message_check(v: AssemblerView, sub: u8, index: u8, data: Seq<u8>) -> Result<(), Error> {
    if sub == TX_FIELDS {
        v.fields_check(data.len())
    } else if sub == TX_LENGTHS {
        v.lengths_check(data)
    } else if sub == TX_CALL {
        v.call_check(index as nat, data.len())
    } else if sub == TX_CALLDATA {
        v.calldata_check(index as nat, data.len())
    } else {
        Ok(())
    }
}

pub open spec fn is_zero(e: FieldElement) -> bool {
    e.value@ == Seq::new(32, |i: int| 0u8)
}

/// The bytes of a signature reply: the tag, `r`, `s`, then the recovery id.
pub open spec fn signature_bytes(h: HashInfo) -> Seq<u8> {
    seq![SIGNATURE_TAG] + h.r.value@ + h.s.value@ + seq![h.v]
}

/// The session context: the one record that holds a request's state.
pub struct Ctx {
    pub req_type: RequestType,
    pub hash_info: HashInfo,
    pub tx_info: Assembler,
    pub bip32_path: DerivationPath,
}

impl Ctx {
    /// Every field is back at its zero or default value.
    pub open spec fn is_cleared(&self) -> bool {
        &&& self.req_type == RequestType::Idle
        &&& is_zero(self.hash_info.m_hash)
        &&& is_zero(self.hash_info.r)
        &&& is_zero(self.hash_info.s)
        &&& self.hash_info.v == 0
        &&& self.fresh_tx()
        &&& self.bip32_path@.len() == 0
    }

    /// The assembler waits for the first fragment of a new transaction.
    pub open spec fn fresh_tx(&self) -> bool {
        &&& self.tx_info@.wf()
        &&& self.tx_info@.phase == Phase::AwaitFields
        &&& self.tx_info@.call_array.len() == 0
        &&& self.tx_info@.call_array_len == 0
        &&& self.tx_info@.calldata.len() == 0
        &&& self.tx_info@.calldata_len == 0
        &&& self.tx_info@.pending.len() == 0
        &&& self.tx_info@.committed.len() == 0
        &&& is_zero(self.tx_info@.acc)
    }

    pub open spec fn wf(&self) -> bool {
        self.tx_info@.wf()
    }

    /// A context with every field cleared.
    pub fn new() -> (r: Ctx)
        ensures
            r.is_cleared(),
            r.wf(),
    {
        let z = FieldElement::zero();
        Ctx {
            req_type: RequestType::Idle,
            hash_info: HashInfo { m_hash: z, r: z, s: z, v: 0 },
            tx_info: Assembler::new(),
            bip32_path: DerivationPath::empty(),
        }
    }

    /// Resets every field to its zero or default value.
    pub fn clear(&mut self)
        ensures
            final(self).is_cleared(),
            final(self).wf(),
    {
        *self = Ctx::new();
    }

    /// Starts a request that opens with a derivation path: clears the
    /// context, records the request type, and stores the path if it decodes.
    pub fn start_request(&mut self, req: RequestType, path: &[u8]) -> (r: Result<(), Error>)
        ensures
            final(self).wf(),
            final(self).req_type == req,
            is_zero(final(self).hash_info.m_hash),
            is_zero(final(self).hash_info.r),
            is_zero(final(self).hash_info.s),
            final(self).hash_info.v == 0,
            final(self).fresh_tx(),
            r is Ok <==> path_encoding_valid(path@),
            r is Ok ==> final(self).bip32_path@ == path_of_encoding(path@),
            r is Err ==> r->Err_0 == Error::InvalidPath && final(self).bip32_path@.len() == 0,
    {
        self.clear();
        self.req_type = req;
        match DerivationPath::parse(path) {
            Ok(p) => {
                self.bip32_path = p;
                Ok(())
            },
            Err(e) => Err(e),
        }
    }

    /// Starts a standalone hash request: clears the context and splits the
    /// payload into its two 32-byte operands.
    pub fn start_compute_hash(&mut self, data: &[u8]) -> (r: Result<
        (FieldElement, FieldElement),
        Error,
    >)
        ensures
            final(self).wf(),
            final(self).req_type == RequestType::ComputePedersen,
            final(self).fresh_tx(),
            final(self).bip32_path@.len() == 0,
            r is Ok <==> data@.len() == 2 * FIELD_BYTES,
            r is Ok ==> r->Ok_0.0.value@ == data@.subrange(0, 32) && r->Ok_0.1.value@
                == data@.subrange(32, 64),
            r is Err ==> r->Err_0 == Error::MalformedData,
    {
        self.clear();
        self.req_type = RequestType::ComputePedersen;
        if data.len() != 2 * FIELD_BYTES {
            return Err(Error::MalformedData);
        }
        Ok((FieldElement::read_at(data, 0), FieldElement::read_at(data, 32)))
    }

    /// Takes the hash to sign in a direct signing request. Where the review
    /// flag is set the user must confirm it first; otherwise it is signed
    /// as it stands.
    pub fn set_message_hash(&mut self, data: &[u8], review_flag: u8) -> (r: Result<Action, Error>)
        ensures
            r is Ok <==> old(self).req_type == RequestType::SignHash && data@.len() == FIELD_BYTES,
            old(self).req_type != RequestType::SignHash ==> r == Err::<Action, Error>(Error::IndexOutOfOrder),
            old(self).req_type == RequestType::SignHash && data@.len() != FIELD_BYTES
                ==> r == Err::<Action, Error>(Error::MalformedData),
            r is Err ==> *final(self) == *old(self),
            r is Ok ==> final(self).hash_info.m_hash.value@ == data@,
            r is Ok ==> *final(self) == (Ctx {
                hash_info: HashInfo { m_hash: final(self).hash_info.m_hash, ..old(self).hash_info },
                ..*old(self)
            }),
            r is Ok ==> r->Ok_0 == if review_flag > 0 {
                Action::Review(final(self).hash_info.m_hash)
            } else {
                Action::Sign(final(self).hash_info.m_hash)
            },
    {
        if self.req_type != RequestType::SignHash {
            return Err(Error::IndexOutOfOrder);
        }
        if data.len() != FIELD_BYTES {
            return Err(Error::MalformedData);
        }
        let h = FieldElement::read_at(data, 0);
        assert(data@.subrange(0, FIELD_BYTES as int) =~= data@);
        self.hash_info.m_hash = h;
        if review_flag > 0 {
            Ok(Action::Review(h))
        } else {
            Ok(Action::Sign(h))
        }
    }

    /// Records the signature produced over the message hash.
    pub fn record_signature(&mut self, r: FieldElement, s: FieldElement, v: u8)
        ensures
            *final(self) == (Ctx { hash_info: HashInfo { r, s, v, ..old(self).hash_info }, ..*old(self) }),
    {
        self.hash_info.r = r;
        self.hash_info.s = s;
        self.hash_info.v = v;
    }

    /// The reply that carries the recorded signature.
    pub fn signature_reply(&self) -> (r: [u8; 66])
        ensures
            r@ == signature_bytes(self.hash_info),
    {
        let mut out = [0u8; 66];
        out[0] = SIGNATURE_TAG;
        let mut i: usize = 0;
        while i < FIELD_BYTES
            invariant
                i <= FIELD_BYTES,
                out@.len() == SIGNATURE_REPLY_BYTES,
                out@[0] == SIGNATURE_TAG,
                forall|k: int| 0 <= k < i ==> #[trigger] out@[1 + k] == self.hash_info.r.value@[k],
                forall|k: int| 0 <= k < i ==> #[trigger] out@[33 + k] == self.hash_info.s.value@[k],
            decreases FIELD_BYTES - i,
        {
            out[1 + i] = self.hash_info.r.value[i];
            out[33 + i] = self.hash_info.s.value[i];
            i = i + 1;
        }
        let ghost before = out@;
        out[65] = self.hash_info.v;
        let ghost want = signature_bytes(self.hash_info);
        assert forall|k: int| 0 <= k < 66 implies out@[k] == want[k] by {
            if 1 <= k < 33 {
                assert(before[1 + (k - 1)] == self.hash_info.r.value@[k - 1]);
            } else if 33 <= k < 65 {
                assert(before[33 + (k - 33)] == self.hash_info.s.value@[k - 33]);
            }
        }
        assert(out@ =~= want);
        out
    }

    /// Hands a transaction fragment to the assembler. Only a transaction
    /// request takes fragments; a refused fragment changes nothing.
    pub fn tx_message(&mut self, sub: u8, index: u8, data: &[u8]) -> (r: Result<(), Error>)
        requires
            old(self).wf(),
        ensures
            final(self).wf(),
            old(self).req_type != RequestType::SignTransaction ==> r == Err::<(), Error>(
                Error::IndexOutOfOrder,
            ),
            old(self).req_type == RequestType::SignTransaction ==> r == tx_message_check(
                old(self).tx_info@,
                sub,
                index,
                data@,
            ),
            r is Err ==> final(self).tx_info@ == old(self).tx_info@,
            *final(self) == (Ctx { tx_info: final(self).tx_info, ..*old(self) }),
            !(TX_FIELDS <= sub <= TX_CALLDATA) ==> final(self).tx_info@ == old(self).tx_info@,
            r is Ok && sub == TX_FIELDS ==> old(self).tx_info@.fields_taken(final(self).tx_info@, data@),
            r is Ok && sub == TX_LENGTHS ==> old(self).tx_info@.lengths_taken(final(self).tx_info@, data@),
            r is Ok && sub == TX_CALL ==> old(self).tx_info@.call_taken(
                final(self).tx_info@,
                index as nat,
                data@,
            ),
            r is Ok && sub == TX_CALLDATA ==> old(self).tx_info@.calldata_taken(final(self).tx_info@, data@),
    {
        if self.req_type != RequestType::SignTransaction {
            return Err(Error::IndexOutOfOrder);
        }
        if sub == TX_FIELDS {
            self.tx_info.set_fields(data)
        } else if sub == TX_LENGTHS {
            self.tx_info.set_lengths(data)
        } else if sub == TX_CALL {
            self.tx_info.add_call(index as usize, data)
        } else if sub == TX_CALLDATA {
            self.tx_info.add_calldata(index as usize, data)
        } else {
            Ok(())
        }
    }

    /// Once the transaction's commitment is complete, stores it as the
    /// message hash, marks the transaction signed, and returns the hash to
    /// sign. It succeeds at most once per transaction.
    pub fn take_commitment(&mut self) -> (r: Result<FieldElement, Error>)
        requires
            old(self).wf(),
        ensures
            final(self).wf(),
            r is Ok <==> old(self).req_type == RequestType::SignTransaction
                && old(self).tx_info@.action() is Sign,
            r is Err ==> r->Err_0 == Error::IndexOutOfOrder,
            r is Err ==> final(self).tx_info@ == old(self).tx_info@,
            r is Err ==> *final(self) == (Ctx { tx_info: final(self).tx_info, ..*old(self) }),
            r is Ok ==> r->Ok_0 == old(self).tx_info@.acc,
            r is Ok ==> final(self).tx_info@ == (AssemblerView {
                phase: Phase::Done,
                ..old(self).tx_info@
            }),
            r is Ok ==> *final(self) == (Ctx {
                hash_info: HashInfo { m_hash: old(self).tx_info@.acc, ..old(self).hash_info },
                tx_info: final(self).tx_info,
                ..*old(self)
            }),
    {
        if self.req_type != RequestType::SignTransaction {
            return Err(Error::IndexOutOfOrder);
        }
        match self.tx_info.finish() {
            Ok(()) => {
                self.hash_info.m_hash = self.tx_info.acc;
                Ok(self.tx_info.acc)
            },
            Err(e) => Err(e),
        }
    }
}

} // verus!
