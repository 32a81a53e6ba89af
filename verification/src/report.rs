//! Result reporting: the JSON payload built for the delivery callback, and
//! the bounded retry policy applied to delivery attempts.

use vstd::prelude::*;

verus! {

/// Total delivery attempts before the reporter gives up.
pub const MAX_DELIVERY_ATTEMPTS: u64 = 5;

/// The fixed pause between two delivery attempts, in milliseconds.
pub const RETRY_PAUSE_MILLIS: u64 = 1500;

/// The decimal digit character for `d` (`0 <= d <= 9`).
pub open spec fn dec_digit(d: int) -> char {
    ((48 + d) as u8) as char
}

/// The decimal rendering of `n`, most significant digit first, no leading
/// zeros (a single `0` for zero).
pub open spec fn dec_str(n: nat) -> Seq<char>
    decreases n,
{
    if n < 10 {
        seq![dec_digit(n as int)]
    } else {
        dec_str(n / 10).push(dec_digit((n % 10) as int))
    }
}

/// Appends the decimal rendering of `n`.
pub fn push_dec(out: &mut String, n: u64)
    ensures
        final(out)@ == old(out)@ + dec_str(n as nat),
    decreases n,
{
    if n < 10 {
        out.push((48 + n as u8) as char);
        proof {
            assert(out@ =~= old(out)@ + dec_str(n as nat));
        }
    } else {
        push_dec(out, n / 10);
        out.push((48 + (n % 10) as u8) as char);
        proof {
            assert(out@ =~= old(out)@ + dec_str(n as nat));
        }
    }
}

/// Elapsed seconds with three decimal places, rendered from milliseconds:
/// the whole seconds, a point, and the millisecond remainder zero-padded to
/// three digits.
pub open spec fn secs_text(millis: nat) -> Seq<char> {
    dec_str(millis / 1000) + seq![
        '.',
        dec_digit(((millis % 1000) / 100) as int),
        dec_digit((((millis % 1000) / 10) % 10) as int),
        dec_digit(((millis % 1000) % 10) as int),
    ]
}

/// Appends the elapsed-seconds rendering of `millis`.
pub fn push_secs(out: &mut String, millis: u64)
    ensures
        final(out)@ == old(out)@ + secs_text(millis as nat),
{
    push_dec(out, millis / 1000);
    out.push('.');
    let r = millis % 1000;
    out.push((48 + (r / 100) as u8) as char);
    out.push((48 + ((r / 10) % 10) as u8) as char);
    out.push((48 + (r % 10) as u8) as char);
    proof {
        assert(out@ =~= old(out)@ + secs_text(millis as nat));
    }
}

/// The lowercase hexadecimal digit character for `d` (`0 <= d <= 15`).
pub open spec fn hex_digit(d: int) -> char {
    if d < 10 {
        ((48 + d) as u8) as char
    } else {
        ((87 + d) as u8) as char
    }
}

/// How one character is written inside a JSON string: quote and backslash
/// get a backslash escape, control characters a `\u00..` escape, and every
/// other character stands for itself.
pub open spec fn escaped_char(c: char) -> Seq<char> {
    if c == '"' {
        seq!['\\', '"']
    } else if c == '\\' {
        seq!['\\', '\\']
    } else if (c as u32) < 32 {
        seq!['\\', 'u', '0', '0', hex_digit((c as u32 / 16) as int), hex_digit((c as u32 % 16) as int)]
    } else {
        seq![c]
    }
}

/// The JSON-string rendering of `s`, character by character.
pub open spec fn escaped(s: Seq<char>) -> Seq<char>
    decreases s.len(),
{
    if s.len() == 0 {
        Seq::empty()
    } else {
        escaped(s.drop_last()) + escaped_char(s.last())
    }
}

/// Appends the JSON-string rendering of one character.
pub fn push_escaped_char(out: &mut String, c: char)
    ensures
        final(out)@ == old(out)@ + escaped_char(c),
{
    if c == '"' {
        out.push('\\');
        out.push('"');
    } else if c == '\\' {
        out.push('\\');
        out.push('\\');
    } else if (c as u32) < 32 {
        out.push('\\');
        out.push('u');
        out.push('0');
        out.push('0');
        let x = c as u32;
        let hi = (x / 16) as u8;
        let lo = (x % 16) as u8;
        out.push(if hi < 10 { (48 + hi) as char } else { (87 + hi) as char });
        out.push(if lo < 10 { (48 + lo) as char } else { (87 + lo) as char });
    } else {
        out.push(c);
    }
    proof {
        assert(out@ =~= old(out)@ + escaped_char(c));
    }
}

/// Appends the JSON-string rendering of `s`.
pub fn push_escaped_str(out: &mut String, s: &str)
    ensures
        final(out)@ == old(out)@ + escaped(s@),
{
    let n = s.unicode_len();
    let mut i: usize = 0;
    while i < n
        invariant
            n == s@.len(),
            i <= n,
            out@ == old(out)@ + escaped(s@.subrange(0, i as int)),
        decreases n - i,
    {
        let c = s.get_char(i);
        push_escaped_char(out, c);
        proof {
            let t = s@.subrange(0, i + 1 as int);
            assert(t.drop_last() =~= s@.subrange(0, i as int));
            assert(t.last() == s@[i as int]);
            assert(out@ =~= old(out)@ + escaped(t));
        }
        i = i + 1;
    }
    proof {
        assert(s@.subrange(0, n as int) =~= s@);
    }
}

/// Whether `b` is a printable ASCII byte.
pub open spec fn is_printable(b: u8) -> bool {
    32 <= b && b <= 126
}

/// The seed as text, if representable: its bytes read as characters when all
/// of them are printable ASCII, and the empty string otherwise.
pub open spec fn seed_text_of(s: Seq<u8>) -> Seq<char> {
    if forall|i: int| 0 <= i < s.len() ==> is_printable(s[i]) {
        s.map(|i: int, b: u8| b as char)
    } else {
        Seq::empty()
    }
}

/// Appends the JSON-string rendering of the seed's text form.
pub fn push_seed_text(out: &mut String, seed: &[u8])
    ensures
        final(out)@ == old(out)@ + escaped(seed_text_of(seed@)),
{
    let n = seed.len();
    let mut i: usize = 0;
    while i < n
        invariant
            n == seed@.len(),
            i <= n,
            forall|j: int| 0 <= j < i ==> is_printable(seed@[j]),
        decreases n - i,
    {
        if !(32 <= seed[i] && seed[i] <= 126) {
            proof {
                assert(seed_text_of(seed@) =~= Seq::<char>::empty());
                assert(escaped(seed_text_of(seed@)) =~= Seq::<char>::empty());
                assert(out@ =~= old(out)@ + escaped(seed_text_of(seed@)));
            }
            return;
        }
        i = i + 1;
    }
    let ghost text = seed_text_of(seed@);
    proof {
        assert(text =~= seed@.map(|j: int, b: u8| b as char));
    }
    let mut k: usize = 0;
    while k < n
        invariant
            n == seed@.len(),
            k <= n,
            text == seed_text_of(seed@),
            text =~= seed@.map(|j: int, b: u8| b as char),
            out@ == old(out)@ + escaped(text.subrange(0, k as int)),
        decreases n - k,
    {
        let c = seed[k] as char;
        push_escaped_char(out, c);
        proof {
            let t = text.subrange(0, k + 1 as int);
            assert(t.drop_last() =~= text.subrange(0, k as int));
            assert(t.last() == text[k as int]);
            assert(text[k as int] == c);
            assert(out@ =~= old(out)@ + escaped(t));
        }
        k = k + 1;
    }
    proof {
        assert(text.subrange(0, n as int) =~= text);
    }
}

/// The bracketless body of the JSON array of the seed's bytes: the decimal
/// renderings, separated by commas.
pub open spec fn bytes_array_body(s: Seq<u8>) -> Seq<char>
    decreases s.len(),
{
    if s.len() == 0 {
        Seq::empty()
    } else if s.len() == 1 {
        dec_str(s[0] as nat)
    } else {
        bytes_array_body(s.drop_last()) + seq![','] + dec_str(s.last() as nat)
    }
}

/// Appends the comma-separated decimal renderings of the bytes.
pub fn push_bytes_array_body(out: &mut String, b: &[u8])
    ensures
        final(out)@ == old(out)@ + bytes_array_body(b@),
{
    let n = b.len();
    let mut i: usize = 0;
    while i < n
        invariant
            n == b@.len(),
            i <= n,
            out@ == old(out)@ + bytes_array_body(b@.subrange(0, i as int)),
        decreases n - i,
    {
        if i > 0 {
            out.push(',');
        }
        push_dec(out, b[i] as u64);
        proof {
            let t = b@.subrange(0, i + 1 as int);
            assert(t.drop_last() =~= b@.subrange(0, i as int));
            assert(t.last() == b@[i as int]);
            if i == 0 {
                assert(bytes_array_body(t) == dec_str(b@[0] as nat));
            }
            assert(out@ =~= old(out)@ + bytes_array_body(t));
        }
        i = i + 1;
    }
    proof {
        assert(b@.subrange(0, n as int) =~= b@);
    }
}

/// The delivery payload: a JSON object holding the matched text address, the
/// seed as text and as raw bytes, the attempt count, the elapsed seconds,
/// and the caller's correlation token (the empty string when absent).
pub open spec fn payload_text(
    pubkey: Seq<char>,
    seed: Seq<u8>,
    count: u64,
    time_millis: u64,
    uuid: Seq<char>,
) -> Seq<char> {
    "{\"pubkey\":\""@ + escaped(pubkey) + "\",\"seed\":\""@ + escaped(seed_text_of(seed))
        + "\",\"seed_bytes\":["@ + bytes_array_body(seed) + "],\"count\":"@ + dec_str(count as nat)
        + ",\"time_secs\":"@ + secs_text(time_millis as nat) + ",\"uuid\":\""@ + escaped(uuid)
        + "\"}"@
}

/// Builds the delivery payload for a confirmed match.
pub fn build_payload(
    pubkey: &str,
    seed: &[u8; 16],
    count: u64,
    time_millis: u64,
    uuid: &str,
) -> (r: String)
    ensures
        r@ == payload_text(pubkey@, seed@, count, time_millis, uuid@),
{
    let mut out = String::new();
    out.append("{\"pubkey\":\"");
    push_escaped_str(&mut out, pubkey);
    out.append("\",\"seed\":\"");
    push_seed_text(&mut out, seed.as_slice());
    out.append("\",\"seed_bytes\":[");
    push_bytes_array_body(&mut out, seed.as_slice());
    out.append("],\"count\":");
    push_dec(&mut out, count);
    out.append(",\"time_secs\":");
    push_secs(&mut out, time_millis);
    out.append(",\"uuid\":\"");
    push_escaped_str(&mut out, uuid);
    out.append("\"}");
    proof {
        assert(out@ =~= payload_text(pubkey@, seed@, count, time_millis, uuid@));
    }
    out
}

/// What follows one delivery attempt.
pub enum RetryDecision {
    /// The endpoint answered 200: delivery is done.
    Done,
    /// The attempt failed and attempts remain: pause, then try again.
    RetryAfterPause,
    /// The attempt failed and the budget is spent: give up silently.
    GiveUp,
}

/// The retry rule: success is exactly an HTTP 200 answer; any other outcome
/// pauses and retries until the fixed budget of attempts is spent.
pub open spec fn retry_decision(attempts_made: int, got_200: bool) -> RetryDecision {
    if got_200 {
        RetryDecision::Done
    } else if attempts_made >= MAX_DELIVERY_ATTEMPTS {
        RetryDecision::GiveUp
    } else {
        RetryDecision::RetryAfterPause
    }
}

/// Decides what follows a delivery attempt: `attempts_made` counts the
/// attempt just finished, `got_200` says whether it got an HTTP 200 answer.
pub fn next_retry_action(attempts_made: u64, got_200: bool) -> (r: RetryDecision)
    ensures
        r == retry_decision(attempts_made as int, got_200),
{
    if got_200 {
        RetryDecision::Done
    } else if attempts_made >= MAX_DELIVERY_ATTEMPTS {
        RetryDecision::GiveUp
    } else {
        RetryDecision::RetryAfterPause
    }
}

/// The number of attempts a reporter makes, given the answers the endpoint
/// would return to each successive attempt (`true` is an HTTP 200): `made`
/// attempts are already behind, one more is made now, and the retry rule
/// decides whether another follows.
pub open spec fn attempts_after(made: nat, answers: Seq<bool>) -> nat
    decreases answers.len(),
{
    if answers.len() == 0 {
        made
    } else {
        match retry_decision(made + 1 as int, answers[0]) {
            RetryDecision::RetryAfterPause => attempts_after(made + 1, answers.drop_first()),
            _ => made + 1,
        }
    }
}

/// The total attempts a fresh reporter makes against `answers`.
pub open spec fn delivery_attempts(answers: Seq<bool>) -> nat {
    attempts_after(0, answers)
}

/// Whether the run ends in a delivered result: the last attempt made is one
/// that was answered 200.
pub open spec fn delivered(answers: Seq<bool>) -> bool {
    &&& 0 < delivery_attempts(answers) <= answers.len()
    &&& answers[delivery_attempts(answers) - 1]
}

/// The bounded-retry law, for an endpoint that fails the first four
/// attempts: if the fifth attempt is answered 200 the reporter succeeds on
/// exactly the fifth attempt, after four pauses; if every attempt fails the
/// reporter makes exactly five attempts and then gives up, without a sixth.
pub proof fn lemma_delivery_retry(answers: Seq<bool>)
    requires
        answers.len() == 5,
        !answers[0],
        !answers[1],
        !answers[2],
        !answers[3],
    ensures
        delivery_attempts(answers) == 5,
        delivered(answers) <==> answers[4],
        forall|k: int| 1 <= k <= 4 ==> retry_decision(k, false) == RetryDecision::RetryAfterPause,
        answers[4] ==> retry_decision(5, answers[4]) == RetryDecision::Done,
        !answers[4] ==> retry_decision(5, answers[4]) == RetryDecision::GiveUp,
{
    let a1 = answers.drop_first();
    let a2 = a1.drop_first();
    let a3 = a2.drop_first();
    let a4 = a3.drop_first();
    assert(a1[0] == answers[1] && a2[0] == answers[2] && a3[0] == answers[3] && a4[0]
        == answers[4]);
    assert(a4.len() == 1);
    assert(attempts_after(4, a4) == 5);
    assert(attempts_after(3, a3) == 5);
    assert(attempts_after(2, a2) == 5);
    assert(attempts_after(1, a1) == 5);
    assert(attempts_after(0, answers) == 5);
}

} // verus!
