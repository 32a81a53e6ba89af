//! Contracts for the few std functions this crate uses that vstd does not
//! specify.

use vstd::prelude::*;

verus! {

/// Relies on String::push: appends exactly the one character to the string.
pub assume_specification [ String::push ](s: &mut String, c: char)
    ensures
        final(s)@ == old(s)@.push(c),
;

/// Relies on std::time::SystemTime: the milliseconds elapsed since the Unix
/// epoch. Nothing is assumed of the value, which depends on the clock.
#[verifier::external_body]
pub(crate) fn now_millis() -> u64 {
    std::time::SystemTime::now()
        .duration_since(std::time::UNIX_EPOCH)
        .map(|d| d.as_millis() as u64)
        .unwrap_or(0)
}

} // verus!
