use vstd::prelude::*;

verus! {

/// Why a command or a transaction fragment was refused.
#[derive(Clone, Copy, Debug, PartialEq, Eq, Structural)]
pub enum Error {
    /// The derivation path is too deep or its encoding is malformed.
    InvalidPath,
    /// A declared length exceeds the fixed capacity of the assembler.
    CapacityExceeded,
    /// A message arrived out of the declared order, or with a stale or skipped index.
    IndexOutOfOrder,
    /// An index at or beyond the declared length.
    IndexOutOfRange,
    /// The user rejected the operation.
    UserCancelled,
    /// A payload was required and none came.
    NothingReceived,
    /// The confirmation interface failed.
    UnspecifiedFailure,
    /// A payload whose size does not match its message kind.
    MalformedData,
}

} // verus!
