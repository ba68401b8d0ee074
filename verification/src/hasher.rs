//! Streaming 256-bit content digest. The accumulator comes from the sha2
//! crate and is held opaque; what it has absorbed, and what its digest is a
//! function of, is tracked through the two named results below. The hex form
//! of a whole byte string is computed here block by block, so large inputs
//! can be digested without being held in memory at once.

use vstd::prelude::*;
use vstd::slice::slice_subrange;
use crate::hexutil::{hex_lower_of, hex_encode};

verus! {

/// Streaming SHA-256 accumulator state from the sha2 crate, opaque to the
/// verifier; `sha256_fed` names the bytes it has absorbed so far.
#[verifier::external_body]
pub struct Sha256Stream {
    inner: sha2::Sha256,
}

/// The bytes a `Sha256Stream` has absorbed so far, in order.
pub uninterp spec fn sha256_fed(h: Sha256Stream) -> Seq<u8>;

/// The SHA-256 digest of a byte string: 32 bytes determined by the input
/// alone.
pub uninterp spec fn sha256_of(data: Seq<u8>) -> Seq<u8>;

impl Sha256Stream {
    /// Relies on sha2::Sha256::new: a fresh accumulator has absorbed
    /// nothing.
    #[verifier::external_body]
    pub fn new() -> (h: Sha256Stream)
        ensures
            sha256_fed(h) == Seq::<u8>::empty(),
    {
        Sha256Stream { inner: <sha2::Sha256 as sha2::Digest>::new() }
    }

    /// Relies on sha2::Sha256::update: the chunk is absorbed after
    /// everything absorbed before it.
    #[verifier::external_body]
    pub fn update(&mut self, chunk: &[u8])
        ensures
            sha256_fed(*final(self)) == sha256_fed(*old(self)) + chunk@,
    {
        <sha2::Sha256 as sha2::Digest>::update(&mut self.inner, chunk);
    }

    /// Relies on sha2::Sha256::finalize: the digest is 32 bytes and a
    /// function of the absorbed stream alone.
    #[verifier::external_body]
    pub fn finish(self) -> (d: Vec<u8>)
        ensures
            d@ == sha256_of(sha256_fed(self)),
            d@.len() == 32,
    {
        <sha2::Sha256 as sha2::Digest>::finalize(self.inner).to_vec()
    }
}

/// Size of one digest block.
pub const DIGEST_BLOCK: usize = 8192;

/// The lowercase hex SHA-256 digest of `data`, absorbed in fixed-size
/// blocks.
pub fn digest_bytes(data: &[u8]) -> (r: String)
    ensures
        r@ == hex_lower_of(sha256_of(data@)),
{
    let mut h = Sha256Stream::new();
    let n: usize = data.len();
    let mut i: usize = 0;
    while i < n
        invariant
            n == data@.len(),
            i <= n,
            sha256_fed(h) == data@.subrange(0, i as int),
        decreases n - i,
    {
        let j: usize = if n - i < DIGEST_BLOCK { n } else { i + DIGEST_BLOCK };
        let block = slice_subrange(data, i, j);
        h.update(block);
        proof {
            assert(data@.subrange(0, i as int) + data@.subrange(i as int, j as int)
                =~= data@.subrange(0, j as int));
        }
        i = j;
    }
    proof {
        assert(data@.subrange(0, n as int) =~= data@);
    }
    let d = h.finish();
    hex_encode(d.as_slice())
}

} // verus!
