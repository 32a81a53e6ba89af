//! The search worker: per-iteration seed generation, derivation, matching,
//! and termination coordination through the shared signal.

use vstd::prelude::*;
use core::sync::atomic::{AtomicBool, Ordering};
use crate::address::{derived_text, encode};
use crate::alphabet::{fold_for_mode, maybe_bs58_aware_lowercase};
use crate::pattern::{matches_pattern, pattern_matches};
use crate::seed::{all_alnum, random_alphanumeric_16};
use crate::stdx::now_millis;

verus! {

/// The record built at the moment a match is confirmed: the canonical
/// (non-folded) text address, the winning seed, the attempt count, and the
/// elapsed time in milliseconds.
pub struct FoundRecord {
    pub pubkey: String,
    pub seed: [u8; 16],
    pub count: u64,
    pub time_millis: u64,
}

/// What a confirmed match guarantees: the reported address is the canonical
/// encoding of the hash of `base || seed || owner`, and its folded form
/// satisfies the (already normalized) pattern.
pub open spec fn record_confirmed(
    rec: FoundRecord,
    base: Seq<u8>,
    owner: Seq<u8>,
    prefix: Seq<char>,
    suffix: Seq<char>,
    case_insensitive: bool,
) -> bool {
    &&& rec.pubkey@ == derived_text(base, rec.seed@, owner)
    &&& pattern_matches(fold_for_mode(rec.pubkey@, case_insensitive), prefix, suffix)
    &&& crate::alphabet::all_bs58(rec.pubkey@)
}

/// The two states of a worker's lifecycle.
pub enum WorkerState {
    Searching,
    Stopped,
}

/// The worker state machine: a searching worker stops when it observes the
/// termination signal or confirms a match of its own; a stopped worker never
/// searches again.
pub open spec fn next_state(s: WorkerState, signal_observed: bool, matched: bool) -> WorkerState {
    match s {
        WorkerState::Stopped => WorkerState::Stopped,
        WorkerState::Searching => if signal_observed || matched {
            WorkerState::Stopped
        } else {
            WorkerState::Searching
        },
    }
}

/// `Stopped` is terminal: no event resumes a stopped worker, so once every
/// worker has stopped, no further attempts are made.
pub proof fn lemma_stopped_is_terminal(signal_observed: bool, matched: bool)
    ensures
        next_state(WorkerState::Stopped, signal_observed, matched) == WorkerState::Stopped,
{
}

/// A searching worker that observes the termination signal stops, whatever
/// its own iteration did: one sibling's confirmed match stops every worker
/// at its next loop-top check.
pub proof fn lemma_signal_stops_worker(matched: bool)
    ensures
        next_state(WorkerState::Searching, true, matched) == WorkerState::Stopped,
{
}

/// How one batch of general-purpose search iterations ended.
pub enum BatchOutcome {
    /// This worker confirmed a match and won the race to set the termination
    /// signal; the caller must report the record.
    Found(FoundRecord),
    /// This worker observed the termination signal (or lost the race to set
    /// it after a match of its own): it stops without reporting.
    Stopped,
    /// The iteration budget ran out with no match; the attempt count so far
    /// is carried to the next batch.
    Exhausted(u64),
}

/// Runs up to `budget` general-purpose search iterations. Each iteration
/// checks the shared termination signal, draws a fresh 16-byte alphanumeric
/// seed, derives and encodes the candidate address, folds it for the
/// configured case mode, and tests it against the pattern. On a match the
/// worker sets the signal with a compare-and-swap, so that at most one
/// worker per run proceeds to reporting.
///
/// The pattern is expected to be already validated and normalized; the
/// reported address is always the canonical, non-folded encoding.
pub fn search_batch(
    base: &[u8; 32],
    owner: &[u8; 32],
    prefix: &str,
    suffix: &str,
    case_insensitive: bool,
    exit: &AtomicBool,
    count_so_far: u64,
    start_millis: u64,
    budget: u64,
) -> (r: BatchOutcome)
    ensures
        r matches BatchOutcome::Found(rec) ==> {
            &&& record_confirmed(rec, base@, owner@, prefix@, suffix@, case_insensitive)
            &&& all_alnum(rec.seed@)
            &&& rec.count >= count_so_far
            &&& rec.count >= 1
            &&& rec.count <= count_so_far + budget
        },
        r matches BatchOutcome::Exhausted(c) ==> count_so_far <= c <= count_so_far + budget,
{
    let mut count: u64 = count_so_far;
    let mut remaining: u64 = budget;
    while remaining > 0
        invariant
            count >= count_so_far,
            remaining <= budget,
            count <= count_so_far + (budget - remaining),
        decreases remaining,
    {
        if exit.load(Ordering::Acquire) {
            return BatchOutcome::Stopped;
        }
        let seed = random_alphanumeric_16();
        let pk = crate::address::derive(base, &seed, owner);
        let text = encode(&pk);
        let folded = maybe_bs58_aware_lowercase(text.as_str(), case_insensitive);
        count = count.saturating_add(1);
        if matches_pattern(folded.as_str(), prefix, suffix) {
            let won = exit.compare_exchange(false, true, Ordering::AcqRel, Ordering::Acquire);
            if won.is_ok() {
                let elapsed = now_millis().saturating_sub(start_millis);
                return BatchOutcome::Found(
                    FoundRecord { pubkey: text, seed, count, time_millis: elapsed },
                );
            } else {
                return BatchOutcome::Stopped;
            }
        }
        remaining = remaining - 1;
    }
    BatchOutcome::Exhausted(count)
}

/// The value of eight little-endian bytes starting at `off` in `s`.
pub open spec fn u64_from_le8(s: Seq<u8>, off: int) -> int {
    s[off] + 256 * s[off + 1] + 65536 * s[off + 2] + 16777216 * s[off + 3] + 4294967296 * s[off
        + 4] + 1099511627776 * s[off + 5] + 281474976710656 * s[off + 6] + 72057594037927936 * s[off
        + 7]
}

/// Reads the eight little-endian bytes at `off` as a `u64`.
pub fn read_u64_le(b: &[u8], off: usize) -> (r: u64)
    requires
        off + 8 <= b@.len(),
    ensures
        r == u64_from_le8(b@, off as int),
{
    (b[off] as u64) + 256 * (b[off + 1] as u64) + 65536 * (b[off + 2] as u64) + 16777216 * (b[off
        + 3] as u64) + 4294967296 * (b[off + 4] as u64) + 1099511627776 * (b[off + 5] as u64)
        + 281474976710656 * (b[off + 6] as u64) + 72057594037927936 * (b[off + 7] as u64)
}

/// Interprets an accelerated worker's 24-byte output buffer: bytes 0-15 are
/// the candidate seed, bytes 16-23 the little-endian attempt count for that
/// invocation. The candidate is re-derived and re-validated here, since the
/// external kernel is not assumed to apply the exact same folding and
/// comparison rule: the result is `Some` exactly when the re-derived address
/// satisfies the pattern, and its fields are taken from the buffer alone.
pub fn confirm_kernel_output(
    base: &[u8; 32],
    owner: &[u8; 32],
    out: &[u8; 24],
    prefix: &str,
    suffix: &str,
    case_insensitive: bool,
    time_millis: u64,
) -> (r: Option<FoundRecord>)
    ensures
        r is Some <==> pattern_matches(
            fold_for_mode(derived_text(base@, out@.subrange(0, 16), owner@), case_insensitive),
            prefix@,
            suffix@,
        ),
        r matches Some(rec) ==> {
            &&& record_confirmed(rec, base@, owner@, prefix@, suffix@, case_insensitive)
            &&& rec.seed@ == out@.subrange(0, 16)
            &&& rec.count == u64_from_le8(out@, 16)
            &&& rec.time_millis == time_millis
        },
{
    let mut seed: [u8; 16] = [0; 16];
    let mut i: usize = 0;
    while i < 16
        invariant
            i <= 16,
            seed@.len() == 16,
            forall|j: int| 0 <= j < i ==> seed@[j] == out@[j],
        decreases 16 - i,
    {
        seed[i] = out[i];
        i = i + 1;
    }
    proof {
        assert(seed@ =~= out@.subrange(0, 16));
    }
    let pk = crate::address::derive(base, &seed, owner);
    let text = encode(&pk);
    let folded = maybe_bs58_aware_lowercase(text.as_str(), case_insensitive);
    if matches_pattern(folded.as_str(), prefix, suffix) {
        let count = read_u64_le(out.as_slice(), 16);
        Some(FoundRecord { pubkey: text, seed, count, time_millis })
    } else {
        None
    }
}

} // verus!
