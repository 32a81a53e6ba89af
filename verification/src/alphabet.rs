//! The 58-symbol text alphabet and the case-folding rule used for
//! case-insensitive matching.

use vstd::prelude::*;

verus! {

/// The 58-symbol alphabet: digits and ASCII letters, excluding the visually
/// ambiguous characters `0`, `O`, `I` and `l`.
pub open spec fn is_bs58_char(c: char) -> bool {
    ('1' <= c && c <= '9')
    || ('A' <= c && c <= 'H')
    || ('J' <= c && c <= 'N')
    || ('P' <= c && c <= 'Z')
    || ('a' <= c && c <= 'k')
    || ('m' <= c && c <= 'z')
}

/// Whether every character of `s` belongs to the 58-symbol alphabet.
pub open spec fn all_bs58(s: Seq<char>) -> bool {
    forall|i: int| 0 <= i < s.len() ==> is_bs58_char(s[i])
}

/// Executable membership test for the 58-symbol alphabet.
pub fn is_bs58_char_exec(c: char) -> (r: bool)
    ensures
        r == is_bs58_char(c),
{
    ('1' <= c && c <= '9')
    || ('A' <= c && c <= 'H')
    || ('J' <= c && c <= 'N')
    || ('P' <= c && c <= 'Z')
    || ('a' <= c && c <= 'k')
    || ('m' <= c && c <= 'z')
}

/// The case-folding rule: every ASCII uppercase letter is folded to its
/// lowercase form, except `L`, which is kept as a literal because folding it
/// would collide with the excluded ambiguous character `l`.
pub open spec fn fold_char(c: char) -> char {
    if c == 'L' {
        c
    } else if 'A' <= c && c <= 'Z' {
        (((c as u32) + 32) as char)
    } else {
        c
    }
}

/// Character-wise case folding of a whole string.
pub open spec fn fold_seq(s: Seq<char>) -> Seq<char> {
    s.map(|i: int, c: char| fold_char(c))
}

/// What a string compared against the pattern looks like: folded when
/// case-insensitive mode is on, unchanged otherwise.
pub open spec fn fold_for_mode(s: Seq<char>, case_insensitive: bool) -> Seq<char> {
    if case_insensitive {
        fold_seq(s)
    } else {
        s
    }
}

/// Executable case folding of one character.
pub fn fold_char_exec(c: char) -> (r: char)
    ensures
        r == fold_char(c),
{
    if c == 'L' {
        c
    } else if 'A' <= c && c <= 'Z' {
        let b: u8 = (c as u8) + 32;
        let r = b as char;
        proof {
            assert(c as u32 <= 90);
            assert(r == fold_char(c));
        }
        r
    } else {
        c
    }
}

/// Folds `target` character by character when `case_insensitive` is set,
/// lowering every character except the literal `L`; returns `target`
/// unchanged otherwise.
pub fn maybe_bs58_aware_lowercase(target: &str, case_insensitive: bool) -> (r: String)
    ensures
        r@ == fold_for_mode(target@, case_insensitive),
{
    if !case_insensitive {
        return target.to_owned();
    }
    let n = target.unicode_len();
    let mut out = String::new();
    let mut i: usize = 0;
    while i < n
        invariant
            n == target@.len(),
            i <= n,
            out@ == fold_seq(target@).subrange(0, i as int),
        decreases n - i,
    {
        let c = target.get_char(i);
        let f = fold_char_exec(c);
        out.push(f);
        proof {
            assert(out@ =~= fold_seq(target@).subrange(0, i + 1 as int));
        }
        i = i + 1;
    }
    proof {
        assert(out@ =~= fold_seq(target@));
    }
    out
}

/// Folding never leaves the 58-symbol alphabet: a valid character stays
/// valid, since the one uppercase letter whose lowercase form is excluded
/// (`L`) is exempt from folding.
pub proof fn lemma_fold_preserves_bs58(c: char)
    requires
        is_bs58_char(c),
    ensures
        is_bs58_char(fold_char(c)),
{
}

/// String-level form: a pattern that is entirely within the alphabet is
/// still within the alphabet after folding.
pub proof fn lemma_fold_seq_preserves_bs58(s: Seq<char>)
    requires
        all_bs58(s),
    ensures
        all_bs58(fold_seq(s)),
{
    assert forall|i: int| 0 <= i < fold_seq(s).len() implies is_bs58_char(fold_seq(s)[i]) by {
        lemma_fold_preserves_bs58(s[i]);
    }
}

} // verus!
