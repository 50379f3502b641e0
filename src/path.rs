use vstd::prelude::*;
use crate::error::Error;
use crate::buffer::Buffer;

verus! {

/// Deepest derivation path accepted.
pub const MAX_PATH_DEPTH: usize = 10;

/// The big-endian 32-bit integer stored at `b[at..at + 4]`.
pub open spec fn be_u32(b: Seq<u8>, at: int) -> int {
    b[at] * 16777216 + b[at + 1] * 65536 + b[at + 2] * 256 + b[at + 3]
}

/// Reads the big-endian 32-bit integer stored at `b[at..at + 4]`.
pub fn read_u32_be(b: &[u8], at: usize) -> (r: u32)
    requires
        at + 4 <= b@.len(),
    ensures
        r as int == be_u32(b@, at as int),
{
    let b0 = b[at] as u32;
    let b1 = b[at + 1] as u32;
    let b2 = b[at + 2] as u32;
    let b3 = b[at + 3] as u32;
    b0 * 16777216 + b1 * 65536 + b2 * 256 + b3
}

/// A hierarchical key-derivation path: one index per level.
#[derive(Debug)]
pub struct DerivationPath {
    pub components: Buffer<u32, MAX_PATH_DEPTH>,
}

impl View for DerivationPath {
    type V = Seq<u32>;

    open spec fn view(&self) -> Seq<u32> {
        self.components@
    }
}

/// An encoded path is one depth byte followed by that many big-endian
/// 32-bit indices, and nothing else.
pub open spec fn path_encoding_valid(data: Seq<u8>) -> bool {
    &&& data.len() >= 1
    &&& data[0] as int <= MAX_PATH_DEPTH
    &&& data.len() == 1 + 4 * (data[0] as int)
}

/// The indices that a valid encoding holds.
pub open spec fn path_of_encoding(data: Seq<u8>) -> Seq<u32> {
    Seq::new(data[0] as nat, |i: int| be_u32(data, 1 + 4 * i) as u32)
}

impl DerivationPath {
    /// The empty path.
    pub fn empty() -> (r: DerivationPath)
        ensures
            r@ == Seq::<u32>::empty(),
    {
        DerivationPath { components: Buffer::new(0) }
    }

    /// Number of levels.
    pub fn depth(&self) -> (r: usize)
        ensures
            r == self@.len(),
    {
        self.components.len()
    }

    /// Decodes a path, refusing one that is too deep or malformed.
    pub fn parse(data: &[u8]) -> (r: Result<DerivationPath, Error>)
        ensures
            r is Ok <==> path_encoding_valid(data@),
            r is Ok ==> r->Ok_0@ == path_of_encoding(data@),
            r is Err ==> r->Err_0 == Error::InvalidPath,
    {
        if data.len() < 1 {
            return Err(Error::InvalidPath);
        }
        let depth = data[0] as usize;
        if depth > MAX_PATH_DEPTH || data.len() != 1 + 4 * depth {
            return Err(Error::InvalidPath);
        }
        let mut components: Buffer<u32, MAX_PATH_DEPTH> = Buffer::new(0);
        let mut i: usize = 0;
        while i < depth
            invariant
                depth == data@[0] as int,
                depth <= MAX_PATH_DEPTH,
                data@.len() == 1 + 4 * depth,
                i <= depth,
                components@.len() == i,
                forall|k: int| 0 <= k < i ==> components@[k] == be_u32(data@, 1 + 4 * k) as u32,
            decreases depth - i,
        {
            let c = read_u32_be(data, 1 + 4 * i);
            components.push(c);
            i = i + 1;
        }
        let r = DerivationPath { components };
        assert(r@ =~= path_of_encoding(data@));
        Ok(r)
    }
}

} // verus!
