//! Validation of the configuration values supplied at startup: the callback
//! URL, the two 32-byte identifiers, and the worker count default.

use vstd::prelude::*;
use vstd::seq_lib::*;
use crate::address::bs58_of;
use crate::pattern::str_starts_with;
use std::str::FromStr;

verus! {

/// Accepts exactly the URLs that begin with `http://` or `https://`; the
/// accepted string is returned unchanged.
pub fn parse_url(input: &str) -> (r: Result<String, String>)
    ensures
        r is Ok <==> ("http://"@.is_prefix_of(input@) || "https://"@.is_prefix_of(input@)),
        r is Ok ==> r->Ok_0@ == input@,
        r is Err ==> r->Err_0@ == "URL must start with http:// or https://"@,
{
    if str_starts_with(input, "http://") || str_starts_with(input, "https://") {
        Ok(input.to_owned())
    } else {
        Err("URL must start with http:// or https://".to_owned())
    }
}

/// Relies on solana_pubkey::Pubkey::from_str: it accepts exactly the strings
/// that are the canonical base-58 rendering of 32 bytes (every such rendering
/// is at most 44 characters, and the decoder admits no other form), so it
/// succeeds precisely on renderings of 32-byte values, and on success the
/// rendering of the returned bytes is the input itself; on failure the parse
/// error is rendered as text.
#[verifier::external_body]
fn pubkey_from_str(input: &str) -> (r: Result<[u8; 32], String>)
    ensures
        r is Ok <==> (exists|b: Seq<u8>| b.len() == 32 && bs58_of(b) == input@),
        r matches Ok(b) ==> bs58_of(b@) == input@,
{
    match solana_pubkey::Pubkey::from_str(input) {
        Ok(pk) => Ok(pk.to_bytes()),
        Err(e) => Err(e.to_string()),
    }
}

/// Parses a 32-byte identifier from its base-58 text form: it succeeds
/// exactly on the strings that render some 32-byte value, and the identifier
/// returned is the one whose text rendering is the input.
pub fn parse_pubkey(input: &str) -> (r: Result<[u8; 32], String>)
    ensures
        r is Ok <==> (exists|b: Seq<u8>| b.len() == 32 && bs58_of(b) == input@),
        r matches Ok(b) ==> bs58_of(b@) == input@,
{
    pubkey_from_str(input)
}

/// Applies the worker-count default: a requested count of zero becomes the
/// number of available hardware execution contexts, supplied by the caller;
/// any other request is kept as it is.
pub fn maybe_update_num_cpus(num_cpus: &mut u32, available: u32)
    ensures
        *final(num_cpus) == if *old(num_cpus) == 0 {
            available
        } else {
            *old(num_cpus)
        },
{
    if *num_cpus == 0 {
        *num_cpus = available;
    }
}

} // verus!
