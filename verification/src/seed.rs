//! Seed generation: uniformly random 16-byte alphanumeric seeds for
//! general-purpose workers, and hash-derived 32-byte seed material for
//! accelerated workers.

use vstd::prelude::*;
use rand::Rng;
use crate::address::{sha256_digest, sha256_of};

verus! {

/// Whether `b` is an ASCII alphanumeric byte: `0`-`9`, `A`-`Z` or `a`-`z`.
pub open spec fn is_alnum_byte(b: u8) -> bool {
    (48 <= b && b <= 57) || (65 <= b && b <= 90) || (97 <= b && b <= 122)
}

/// Whether every byte of `s` is ASCII alphanumeric.
pub open spec fn all_alnum(s: Seq<u8>) -> bool {
    forall|i: int| 0 <= i < s.len() ==> is_alnum_byte(s[i])
}

/// The little-endian rendering of a `u32`, least significant byte first.
pub open spec fn u32_le(x: u32) -> Seq<u8> {
    seq![
        (x % 256) as u8,
        ((x / 256) % 256) as u8,
        ((x / 65536) % 256) as u8,
        ((x / 16777216) % 256) as u8,
    ]
}

/// The little-endian rendering of a `u64`, least significant byte first.
pub open spec fn u64_le(x: u64) -> Seq<u8> {
    seq![
        (x % 256) as u8,
        ((x / 256) % 256) as u8,
        ((x / 65536) % 256) as u8,
        ((x / 16777216) % 256) as u8,
        ((x / 4294967296) % 256) as u8,
        ((x / 1099511627776) % 256) as u8,
        ((x / 281474976710656) % 256) as u8,
        ((x / 72057594037927936) % 256) as u8,
    ]
}

/// Relies on rand's Alphanumeric distribution: each sampled byte is drawn
/// uniformly from the ASCII alphanumeric characters. Nothing is assumed of
/// which bytes come back beyond that.
#[verifier::external_body]
pub(crate) fn random_alphanumeric_16() -> (r: [u8; 16])
    ensures
        all_alnum(r@),
{
    let mut it = rand::thread_rng().sample_iter(&rand::distributions::Alphanumeric);
    core::array::from_fn(|_| it.next().unwrap())
}

/// Relies on rand::random: 32 bytes of fresh randomness. Nothing is assumed
/// of which bytes come back.
#[verifier::external_body]
fn random_bytes_32() -> (r: [u8; 32])
{
    rand::random::<[u8; 32]>()
}

/// Writes `x` to `out` as four little-endian bytes.
pub fn push_u32_le(out: &mut Vec<u8>, x: u32)
    ensures
        final(out)@ == old(out)@ + u32_le(x),
{
    out.push((x % 256) as u8);
    out.push(((x / 256) % 256) as u8);
    out.push(((x / 65536) % 256) as u8);
    out.push(((x / 16777216) % 256) as u8);
    proof {
        assert(out@ =~= old(out)@ + u32_le(x));
    }
}

/// Writes `x` to `out` as eight little-endian bytes.
pub fn push_u64_le(out: &mut Vec<u8>, x: u64)
    ensures
        final(out)@ == old(out)@ + u64_le(x),
{
    out.push((x % 256) as u8);
    out.push(((x / 256) % 256) as u8);
    out.push(((x / 65536) % 256) as u8);
    out.push(((x / 16777216) % 256) as u8);
    out.push(((x / 4294967296) % 256) as u8);
    out.push(((x / 1099511627776) % 256) as u8);
    out.push(((x / 281474976710656) % 256) as u8);
    out.push(((x / 72057594037927936) % 256) as u8);
    proof {
        assert(out@ =~= old(out)@ + u64_le(x));
    }
}

/// Derives the 32-byte seed material for one accelerated-worker invocation:
/// the fixed hash of fresh randomness, the worker identity, and the
/// iteration counter. The counter strictly increases across invocations, so
/// no two invocations on the same worker present identical derivation state
/// even if the random source were to repeat.
pub fn new_gpu_seed(gpu_id: u32, iteration: u64) -> (r: [u8; 32])
    ensures
        exists|rnd: Seq<u8>|
            rnd.len() == 32 && r@ == sha256_of(rnd + u32_le(gpu_id) + u64_le(iteration)),
{
    let rnd = random_bytes_32();
    let mut data: Vec<u8> = Vec::new();
    crate::address::append_bytes(&mut data, rnd.as_slice());
    push_u32_le(&mut data, gpu_id);
    push_u64_le(&mut data, iteration);
    proof {
        assert(data@ =~= rnd@ + u32_le(gpu_id) + u64_le(iteration));
    }
    let r = sha256_digest(data.as_slice());
    proof {
        assert(rnd@.len() == 32 && r@ == sha256_of(rnd@ + u32_le(gpu_id) + u64_le(iteration)));
    }
    r
}

} // verus!
