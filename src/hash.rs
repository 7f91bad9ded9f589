//! Hash functions that the engine can use.
use vstd::prelude::*;

verus! {

/// A name for the BLAKE3 digest of `data`.
pub uninterp spec fn blake3_of(data: Seq<u8>) -> Seq<u8>;

/// Relies on `blake3::hash`: the 32-byte BLAKE3 digest of its input, which
/// depends on the input alone.
#[verifier::external_body]
fn blake3_hash(data: &[u8]) -> (r: Vec<u8>)
    ensures
        r@ == blake3_of(data@),
        r@.len() == 32,
{
    blake3::hash(data).as_bytes().to_vec()
}

/// A deterministic function from bytes to a digest.
pub trait HashFunction {
    /// The digest of `data`.
    spec fn spec_hash(&self, data: Seq<u8>) -> Seq<u8>;

    fn hash(&self, data: &[u8]) -> (r: Vec<u8>)
        ensures
            r@ == self.spec_hash(data@),
    ;
}

/// BLAKE3 with its 32-byte output: the default hash function.
#[derive(Clone, Copy, Debug)]
pub struct Blake3;

impl HashFunction for Blake3 {
    open spec fn spec_hash(&self, data: Seq<u8>) -> Seq<u8> {
        blake3_of(data)
    }

    fn hash(&self, data: &[u8]) -> (r: Vec<u8>) {
        blake3_hash(data)
    }
}

} // verus!
