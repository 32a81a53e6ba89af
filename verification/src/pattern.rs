//! Validation and normalization of the target prefix/suffix, and the match
//! test applied to each candidate text address.

use vstd::prelude::*;
use crate::alphabet::{
    all_bs58, fold_for_mode, is_bs58_char, is_bs58_char_exec, maybe_bs58_aware_lowercase,
};
use vstd::seq_lib::*;

verus! {

/// Whether `candidate` satisfies the (already normalized) pattern: it must
/// start with `prefix` and end with `suffix`; an empty prefix or suffix
/// constrains nothing.
pub open spec fn pattern_matches(candidate: Seq<char>, prefix: Seq<char>, suffix: Seq<char>) -> bool {
    prefix.is_prefix_of(candidate) && suffix.is_suffix_of(candidate)
}

/// Checks that every character of `pattern` belongs to the 58-symbol
/// alphabet; reports the first offending character otherwise.
pub fn validate_pattern(pattern: &str) -> (r: Result<(), char>)
    ensures
        r is Ok <==> all_bs58(pattern@),
        r is Err ==> !is_bs58_char(r->Err_0) && pattern@.contains(r->Err_0),
{
    let n = pattern.unicode_len();
    let mut i: usize = 0;
    while i < n
        invariant
            n == pattern@.len(),
            i <= n,
            forall|j: int| 0 <= j < i ==> is_bs58_char(pattern@[j]),
        decreases n - i,
    {
        let c = pattern.get_char(i);
        if !is_bs58_char_exec(c) {
            return Err(c);
        }
        i = i + 1;
    }
    Ok(())
}

/// Validates the optional target prefix and normalizes it for the configured
/// case mode. An absent prefix is the empty string; an invalid one is
/// rejected with its first offending character.
pub fn get_validated_prefix(prefix: Option<&str>, case_insensitive: bool) -> (r: Result<
    String,
    char,
>)
    ensures
        match prefix {
            Some(p) => {
                &&& r is Ok <==> all_bs58(p@)
                &&& r is Ok ==> r->Ok_0@ == fold_for_mode(p@, case_insensitive)
                &&& r is Err ==> !is_bs58_char(r->Err_0) && p@.contains(r->Err_0)
            },
            None => r is Ok && r->Ok_0@ == Seq::<char>::empty(),
        },
        r is Ok ==> all_bs58(r->Ok_0@),
{
    match prefix {
        Some(p) => {
            match validate_pattern(p) {
                Ok(()) => {
                    proof {
                        if case_insensitive {
                            crate::alphabet::lemma_fold_seq_preserves_bs58(p@);
                        }
                    }
                    Ok(maybe_bs58_aware_lowercase(p, case_insensitive))
                },
                Err(c) => Err(c),
            }
        },
        None => Ok(String::new()),
    }
}

/// Validates the optional target suffix and normalizes it for the configured
/// case mode, under the same rules as the prefix.
pub fn get_validated_suffix(suffix: Option<&str>, case_insensitive: bool) -> (r: Result<
    String,
    char,
>)
    ensures
        match suffix {
            Some(s) => {
                &&& r is Ok <==> all_bs58(s@)
                &&& r is Ok ==> r->Ok_0@ == fold_for_mode(s@, case_insensitive)
                &&& r is Err ==> !is_bs58_char(r->Err_0) && s@.contains(r->Err_0)
            },
            None => r is Ok && r->Ok_0@ == Seq::<char>::empty(),
        },
        r is Ok ==> all_bs58(r->Ok_0@),
{
    match suffix {
        Some(s) => {
            match validate_pattern(s) {
                Ok(()) => {
                    proof {
                        if case_insensitive {
                            crate::alphabet::lemma_fold_seq_preserves_bs58(s@);
                        }
                    }
                    Ok(maybe_bs58_aware_lowercase(s, case_insensitive))
                },
                Err(c) => Err(c),
            }
        },
        None => Ok(String::new()),
    }
}

/// Whether `p` is a prefix of `s`, character by character.
pub fn str_starts_with(s: &str, p: &str) -> (r: bool)
    ensures
        r == p@.is_prefix_of(s@),
{
    let sn = s.unicode_len();
    let pn = p.unicode_len();
    if pn > sn {
        return false;
    }
    let mut i: usize = 0;
    while i < pn
        invariant
            sn == s@.len(),
            pn == p@.len(),
            pn <= sn,
            i <= pn,
            forall|j: int| 0 <= j < i ==> s@[j] == p@[j],
        decreases pn - i,
    {
        if s.get_char(i) != p.get_char(i) {
            proof {
                assert(s@.subrange(0, pn as int)[i as int] != p@[i as int]);
            }
            return false;
        }
        i = i + 1;
    }
    proof {
        assert(p@ =~= s@.subrange(0, pn as int));
    }
    true
}

/// Whether `p` is a suffix of `s`, character by character.
pub fn str_ends_with(s: &str, p: &str) -> (r: bool)
    ensures
        r == p@.is_suffix_of(s@),
{
    let sn = s.unicode_len();
    let pn = p.unicode_len();
    if pn > sn {
        return false;
    }
    let off = sn - pn;
    let mut i: usize = 0;
    while i < pn
        invariant
            sn == s@.len(),
            pn == p@.len(),
            pn <= sn,
            off == sn - pn,
            i <= pn,
            forall|j: int| 0 <= j < i ==> s@[off + j] == p@[j],
        decreases pn - i,
    {
        if s.get_char(off + i) != p.get_char(i) {
            proof {
                assert(s@.subrange(off as int, sn as int)[i as int] != p@[i as int]);
            }
            return false;
        }
        i = i + 1;
    }
    proof {
        assert(p@ =~= s@.subrange(off as int, sn as int));
    }
    true
}

/// The match test applied to a candidate text address: the candidate must
/// start with `prefix` and end with `suffix`. Both the candidate and the
/// pattern are expected to be already folded for the configured case mode.
pub fn matches_pattern(candidate: &str, prefix: &str, suffix: &str) -> (r: bool)
    ensures
        r == pattern_matches(candidate@, prefix@, suffix@),
{
    str_starts_with(candidate, prefix) && str_ends_with(candidate, suffix)
}

/// An empty prefix and suffix constrain nothing: every candidate matches.
pub proof fn lemma_empty_pattern_matches_all(candidate: Seq<char>)
    ensures
        pattern_matches(candidate, Seq::<char>::empty(), Seq::<char>::empty()),
{
    assert(Seq::<char>::empty() =~= candidate.subrange(0, 0));
    assert(Seq::<char>::empty() =~= candidate.subrange(
        candidate.len() as int,
        candidate.len() as int,
    ));
}

} // verus!
