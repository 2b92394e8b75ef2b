use vstd::prelude::*;

verus! {

/// The 32-byte digest the hash primitive assigns to a byte string.  The
/// digest is determined by the input bytes alone; nothing else is assumed of
/// it here.
pub uninterp spec fn blake2b_of(data: Seq<u8>) -> Seq<u8>;

/// Relies on blake2b_ref's Blake2bBuilder/update/finalize: a 32-byte
/// blake2b digest of the input bytes, a pure function of those bytes.
#[verifier::external_body]
pub fn blake2b_256(data: &[u8]) -> (r: [u8; 32])
    ensures
        r@ == blake2b_of(data@),
{
    let mut hasher = blake2b_ref::Blake2bBuilder::new(32).build();
    hasher.update(data);
    let mut out = [0u8; 32];
    hasher.finalize(&mut out);
    out
}

} // verus!
