//! Address derivation and text encoding: a candidate address is the 32-byte
//! hash of `base || seed || owner`, rendered over the 58-symbol alphabet.

use vstd::prelude::*;
use crate::alphabet::all_bs58;
use sha2::Digest;

verus! {

/// The 32-byte digest that the fixed cryptographic hash assigns to `data`;
/// a function of the input bytes alone.
pub uninterp spec fn sha256_of(data: Seq<u8>) -> Seq<u8>;

/// The base-58 rendering of `data`; a function of the input bytes alone.
pub uninterp spec fn bs58_of(data: Seq<u8>) -> Seq<char>;

/// The text address derived from a (base, seed, owner) triple.
pub open spec fn derived_text(base: Seq<u8>, seed: Seq<u8>, owner: Seq<u8>) -> Seq<char> {
    bs58_of(sha256_of(base + seed + owner))
}

/// Relies on sha2::Sha256::digest: the 32-byte digest depends on the input
/// bytes alone.
#[verifier::external_body]
pub(crate) fn sha256_digest(data: &[u8]) -> (r: [u8; 32])
    ensures
        r@ == sha256_of(data@),
        r@.len() == 32,
{
    sha2::Sha256::digest(data).into()
}

/// Relies on fd_bs58::encode_32: the rendering depends on the 32 input bytes
/// alone, and every character of it is drawn from the crate's base-58
/// alphabet table, which excludes `0`, `O`, `I` and `l`.
#[verifier::external_body]
fn bs58_encode_32(bytes: &[u8; 32]) -> (r: String)
    ensures
        r@ == bs58_of(bytes@),
        all_bs58(r@),
{
    fd_bs58::encode_32(bytes)
}

/// Appends every byte of `b` to `out`.
pub fn append_bytes(out: &mut Vec<u8>, b: &[u8])
    ensures
        final(out)@ == old(out)@ + b@,
{
    let n = b.len();
    let mut i: usize = 0;
    while i < n
        invariant
            n == b@.len(),
            i <= n,
            out@ == old(out)@ + b@.subrange(0, i as int),
        decreases n - i,
    {
        let x = b[i];
        out.push(x);
        proof {
            assert(out@ =~= old(out)@ + b@.subrange(0, i + 1 as int));
        }
        i = i + 1;
    }
    proof {
        assert(out@ =~= old(out)@ + b@);
    }
}

/// Derives the candidate address: the fixed hash of the concatenation
/// `base || seed || owner`, in that exact order, with no salting beyond the
/// inputs themselves.
pub fn derive(base: &[u8; 32], seed: &[u8; 16], owner: &[u8; 32]) -> (r: [u8; 32])
    ensures
        r@ == sha256_of(base@ + seed@ + owner@),
{
    let mut data: Vec<u8> = Vec::new();
    append_bytes(&mut data, base.as_slice());
    append_bytes(&mut data, seed.as_slice());
    append_bytes(&mut data, owner.as_slice());
    proof {
        assert(data@ =~= base@ + seed@ + owner@);
    }
    sha256_digest(data.as_slice())
}

/// Encodes a derived address as text over the 58-symbol alphabet; every
/// character of the result belongs to that alphabet.
pub fn encode(addr: &[u8; 32]) -> (r: String)
    ensures
        r@ == bs58_of(addr@),
        all_bs58(r@),
{
    bs58_encode_32(addr)
}

/// Derivation and encoding are deterministic: two text addresses obtained
/// from the same (base, seed, owner) triple are identical.
pub proof fn lemma_derivation_deterministic(
    base: Seq<u8>,
    seed: Seq<u8>,
    owner: Seq<u8>,
    r1: Seq<char>,
    r2: Seq<char>,
)
    requires
        r1 == derived_text(base, seed, owner),
        r2 == derived_text(base, seed, owner),
    ensures
        r1 == r2,
{
}

} // verus!
