use vanity_grind::address::encode;
use vanity_grind::alphabet::{is_bs58_char_exec, maybe_bs58_aware_lowercase};
use vanity_grind::config::{maybe_update_num_cpus, parse_pubkey, parse_url};
use vanity_grind::pattern::{
    get_validated_prefix, get_validated_suffix, matches_pattern, validate_pattern,
};
use vanity_grind::report::{build_payload, next_retry_action, RetryDecision};
use vanity_grind::seed::new_gpu_seed;
use vanity_grind::worker::{confirm_kernel_output, read_u64_le, search_batch, BatchOutcome};
use rayon::iter::{IntoParallelIterator, ParallelIterator};
use sha2::{Digest, Sha256};
use std::sync::atomic::{AtomicBool, Ordering};

const KNOWN_BYTES: [u8; 32] = [
    7, 224, 70, 147, 60, 112, 144, 250, 46, 62, 133, 57, 252, 149, 220, 143, 237, 77, 21, 208,
    191, 61, 58, 206, 152, 136, 129, 103, 129, 48, 141, 139,
];
const KNOWN_TEXT: &str = "XkCriyrNwS3G4rzAXtG5B1nnvb5Ka1JtCku93VqeKAr";

#[test]
fn alphabet_accepts_the_58_symbols() {
    let alphabet = "123456789ABCDEFGHJKLMNPQRSTUVWXYZabcdefghijkmnopqrstuvwxyz";
    assert_eq!(alphabet.chars().count(), 58);
    for c in alphabet.chars() {
        assert!(is_bs58_char_exec(c));
    }
}

#[test]
fn alphabet_rejects_the_ambiguous_characters() {
    for c in ['0', 'O', 'I', 'l', ' ', '+', '/', '{'] {
        assert!(!is_bs58_char_exec(c));
    }
}

#[test]
fn validate_accepts_valid_patterns_and_the_empty_string() {
    assert!(validate_pattern("").is_ok());
    assert!(validate_pattern("abc").is_ok());
    assert!(validate_pattern("123456789ABCDEFGHJKLMNPQRSTUVWXYZabcdefghijkmnopqrstuvwxyz").is_ok());
}

#[test]
fn validate_rejects_each_excluded_character() {
    assert_eq!(validate_pattern("a0b"), Err('0'));
    assert_eq!(validate_pattern("aOb"), Err('O'));
    assert_eq!(validate_pattern("aIb"), Err('I'));
    assert_eq!(validate_pattern("alb"), Err('l'));
}

#[test]
fn case_folding_lowers_everything_but_capital_l() {
    assert_eq!(maybe_bs58_aware_lowercase("PREFIXl", true), "prefixl");
    assert_eq!(maybe_bs58_aware_lowercase("PREFIXL", true), "prefixL");
    assert_eq!(maybe_bs58_aware_lowercase("MiXeD123", true), "mixed123");
}

#[test]
fn case_folding_is_off_when_case_sensitive() {
    assert_eq!(maybe_bs58_aware_lowercase("PREFIXL", false), "PREFIXL");
    assert_eq!(maybe_bs58_aware_lowercase("MiXeD123", false), "MiXeD123");
}

#[test]
fn validated_prefix_folds_and_validates() {
    assert_eq!(get_validated_prefix(Some("AB"), true), Ok("ab".to_string()));
    assert_eq!(get_validated_prefix(Some("AB"), false), Ok("AB".to_string()));
    assert_eq!(get_validated_prefix(None, true), Ok(String::new()));
    assert_eq!(get_validated_prefix(Some("a0"), false), Err('0'));
}

#[test]
fn validated_suffix_folds_and_validates() {
    assert_eq!(get_validated_suffix(Some("XYZ"), true), Ok("xyz".to_string()));
    assert_eq!(get_validated_suffix(None, false), Ok(String::new()));
    assert_eq!(get_validated_suffix(Some("xIz"), true), Err('I'));
}

#[test]
fn match_semantics() {
    assert!(matches_pattern("abcXYZ", "abc", "XYZ"));
    assert!(matches_pattern("abcXYZ", "", ""));
    assert!(!matches_pattern("abcXYZ", "xyz", ""));
    assert!(!matches_pattern("abcXYZ", "", "xyz"));
    assert!(!matches_pattern("ab", "abc", ""));
}

#[test]
fn derivation_is_deterministic() {
    let base = [1u8; 32];
    let seed = [2u8; 16];
    let owner = [3u8; 32];
    let a = encode(&vanity_grind::address::derive(&base, &seed, &owner));
    let b = encode(&vanity_grind::address::derive(&base, &seed, &owner));
    assert_eq!(a, b);
}

#[test]
fn derivation_hashes_the_exact_concatenation() {
    let base = [5u8; 32];
    let seed = [6u8; 16];
    let owner = [7u8; 32];
    let mut data = Vec::new();
    data.extend_from_slice(&base);
    data.extend_from_slice(&seed);
    data.extend_from_slice(&owner);
    let expected: [u8; 32] = Sha256::digest(&data).into();
    assert_eq!(vanity_grind::address::derive(&base, &seed, &owner), expected);
}

#[test]
fn encoding_matches_a_known_vector() {
    assert_eq!(encode(&KNOWN_BYTES), KNOWN_TEXT);
    assert_eq!(encode(&[0u8; 32]), "1".repeat(32));
}

#[test]
fn encoded_addresses_stay_inside_the_alphabet() {
    for fill in [0u8, 1, 37, 128, 255] {
        let text = encode(&[fill; 32]);
        assert!(!text.is_empty());
        for c in text.chars() {
            assert!(is_bs58_char_exec(c));
        }
    }
}

#[test]
fn parse_url_accepts_both_schemes_unchanged() {
    assert_eq!(
        parse_url("http://example.com/cb"),
        Ok("http://example.com/cb".to_string())
    );
    assert_eq!(
        parse_url("https://example.com/cb"),
        Ok("https://example.com/cb".to_string())
    );
}

#[test]
fn parse_url_rejects_other_schemes() {
    assert_eq!(
        parse_url("ftp://example.com"),
        Err("URL must start with http:// or https://".to_string())
    );
    assert!(parse_url("example.com").is_err());
}

#[test]
fn parse_pubkey_decodes_the_known_vector() {
    assert_eq!(parse_pubkey(KNOWN_TEXT), Ok(KNOWN_BYTES));
    let zeros = "1".repeat(32);
    assert_eq!(parse_pubkey(&zeros), Ok([0u8; 32]));
}

#[test]
fn parse_pubkey_rejects_bad_input() {
    assert!(parse_pubkey("not a key!").is_err());
    assert!(parse_pubkey("").is_err());
    assert!(parse_pubkey("0000000000000000000000000000000000000000000").is_err());
}

#[test]
fn num_cpus_default_applies_only_to_zero() {
    let mut n = 0u32;
    maybe_update_num_cpus(&mut n, 8);
    assert_eq!(n, 8);
    let mut m = 3u32;
    maybe_update_num_cpus(&mut m, 8);
    assert_eq!(m, 3);
}

#[test]
fn search_seeds_are_alphanumeric() {
    // With an empty pattern the very first attempt matches, so this exercises
    // one full search iteration and the seed it drew.
    let base = [13u8; 32];
    let owner = [14u8; 32];
    let exit = AtomicBool::new(false);
    match search_batch(&base, &owner, "", "", false, &exit, 0, 0, 10) {
        BatchOutcome::Found(rec) => {
            assert_eq!(rec.count, 1);
            for b in rec.seed {
                assert!(b.is_ascii_alphanumeric());
            }
        }
        _ => panic!("an empty pattern must match at once"),
    }
}

#[test]
fn gpu_seeds_incorporate_fresh_randomness() {
    let a = new_gpu_seed(0, 0);
    let b = new_gpu_seed(0, 0);
    assert_ne!(a, b);
}

#[test]
fn read_u64_le_decodes_little_endian() {
    let bytes = [0x78u8, 0x56, 0x34, 0x12, 0, 0, 0, 0];
    assert_eq!(read_u64_le(&bytes, 0), 0x12345678);
    let max = [0xffu8; 8];
    assert_eq!(read_u64_le(&max, 0), u64::MAX);
    let mut buf = vec![0u8; 10];
    buf[2] = 1;
    assert_eq!(read_u64_le(&buf, 2), 1);
}

#[test]
fn payload_has_the_exact_shape() {
    let seed: [u8; 16] = *b"ABCDEFGHIJKLMNOP";
    let payload = build_payload("abc", &seed, 7, 1500, "xyz");
    assert_eq!(
        payload,
        "{\"pubkey\":\"abc\",\"seed\":\"ABCDEFGHIJKLMNOP\",\"seed_bytes\":[65,66,67,68,69,70,71,72,73,74,75,76,77,78,79,80],\"count\":7,\"time_secs\":1.500,\"uuid\":\"xyz\"}"
    );
}

#[test]
fn payload_parses_as_json_with_the_right_fields() {
    let seed: [u8; 16] = *b"q3z8mKp2v7w1s5t9";
    let payload = build_payload(KNOWN_TEXT, &seed, 42131, 92500, "run-17");
    let v: serde_json::Value = serde_json::from_str(&payload).unwrap();
    assert_eq!(v["pubkey"].as_str(), Some(KNOWN_TEXT));
    assert_eq!(v["seed"].as_str(), Some("q3z8mKp2v7w1s5t9"));
    assert_eq!(v["count"].as_u64(), Some(42131));
    assert_eq!(v["time_secs"].as_f64(), Some(92.5));
    assert_eq!(v["uuid"].as_str(), Some("run-17"));
    let bytes: Vec<u64> = v["seed_bytes"]
        .as_array()
        .unwrap()
        .iter()
        .map(|x| x.as_u64().unwrap())
        .collect();
    let expected: Vec<u64> = seed.iter().map(|b| *b as u64).collect();
    assert_eq!(bytes, expected);
}

#[test]
fn payload_escapes_the_correlation_token() {
    let seed: [u8; 16] = *b"ABCDEFGHIJKLMNOP";
    let payload = build_payload("abc", &seed, 1, 0, "a\"b\\c\n");
    let v: serde_json::Value = serde_json::from_str(&payload).unwrap();
    assert_eq!(v["uuid"].as_str(), Some("a\"b\\c\n"));
    assert_eq!(v["time_secs"].as_f64(), Some(0.0));
}

#[test]
fn payload_omits_an_unrepresentable_seed_text() {
    let mut seed = *b"ABCDEFGHIJKLMNOP";
    seed[5] = 0x07;
    let payload = build_payload("abc", &seed, 1, 1, "");
    let v: serde_json::Value = serde_json::from_str(&payload).unwrap();
    assert_eq!(v["seed"].as_str(), Some(""));
    assert_eq!(v["seed_bytes"][5].as_u64(), Some(7));
}

#[test]
fn retry_succeeds_on_the_fifth_attempt_after_four_pauses() {
    let mut pauses = 0;
    for attempt in 1u64..=5 {
        let got_200 = attempt == 5;
        match next_retry_action(attempt, got_200) {
            RetryDecision::Done => assert_eq!(attempt, 5),
            RetryDecision::RetryAfterPause => {
                assert!(attempt < 5);
                pauses += 1;
            }
            RetryDecision::GiveUp => panic!("gave up early"),
        }
    }
    assert_eq!(pauses, 4);
}

#[test]
fn retry_gives_up_after_exactly_five_failures() {
    let mut attempts = 0u64;
    loop {
        attempts += 1;
        match next_retry_action(attempts, false) {
            RetryDecision::Done => panic!("no attempt got a 200"),
            RetryDecision::RetryAfterPause => assert!(attempts < 5),
            RetryDecision::GiveUp => break,
        }
    }
    assert_eq!(attempts, 5);
}

#[test]
fn search_finds_a_prefix_and_stops_every_worker() {
    let base = [3u8; 32];
    let owner = [4u8; 32];
    let exit = AtomicBool::new(false);
    let mut count = 0u64;
    let rec = loop {
        match search_batch(&base, &owner, "ab", "", false, &exit, count, 0, 100_000) {
            BatchOutcome::Found(r) => break r,
            BatchOutcome::Stopped => panic!("stopped without a match"),
            BatchOutcome::Exhausted(c) => count = c,
        }
    };
    assert!(rec.pubkey.starts_with("ab"));
    assert!(rec.count >= 1);
    assert!(exit.load(Ordering::Acquire));
    // the reported address is the canonical encoding of the winning seed
    assert_eq!(encode(&vanity_grind::address::derive(&base, &rec.seed, &owner)), rec.pubkey);
    // a sibling worker observing the signal stops without an attempt
    match search_batch(&base, &owner, "ab", "", false, &exit, 0, 0, 10) {
        BatchOutcome::Stopped => {}
        _ => panic!("the signal did not stop the sibling"),
    }
}

#[test]
fn search_respects_case_insensitive_patterns() {
    let base = [9u8; 32];
    let owner = [10u8; 32];
    let prefix = get_validated_prefix(Some("AB"), true).unwrap();
    assert_eq!(prefix, "ab");
    let exit = AtomicBool::new(false);
    let mut count = 0u64;
    let rec = loop {
        match search_batch(&base, &owner, &prefix, "", true, &exit, count, 0, 100_000) {
            BatchOutcome::Found(r) => break r,
            BatchOutcome::Stopped => panic!("stopped without a match"),
            BatchOutcome::Exhausted(c) => count = c,
        }
    };
    let folded = maybe_bs58_aware_lowercase(&rec.pubkey, true);
    assert!(folded.starts_with("ab"));
}

#[test]
fn concurrent_workers_all_stop_and_exactly_one_wins() {
    let base = [21u8; 32];
    let owner = [22u8; 32];
    let exit = AtomicBool::new(false);
    let exit = &exit;
    let outcomes: Vec<Option<String>> = (0..4)
        .into_par_iter()
        .map(|_| {
            let mut count = 0u64;
            loop {
                match search_batch(&base, &owner, "a", "", false, exit, count, 0, 10_000) {
                    BatchOutcome::Found(r) => return Some(r.pubkey),
                    BatchOutcome::Stopped => return None,
                    BatchOutcome::Exhausted(c) => count = c,
                }
            }
        })
        .collect();
    // every worker has stopped; the compare-and-swap let exactly one through
    assert!(exit.load(Ordering::Acquire));
    let winners: Vec<String> = outcomes.into_iter().flatten().collect();
    assert_eq!(winners.len(), 1);
    assert!(winners[0].starts_with('a'));
}

#[test]
fn kernel_output_is_revalidated_before_being_trusted() {
    let base = [11u8; 32];
    let owner = [12u8; 32];
    let seed = *b"0123456789abcdef";
    let mut out = [0u8; 24];
    out[..16].copy_from_slice(&seed);
    out[16] = 57; // little-endian attempt count
    out[17] = 2;
    let text = encode(&vanity_grind::address::derive(&base, &seed, &owner));
    let first = text.chars().next().unwrap().to_string();

    let confirmed = confirm_kernel_output(&base, &owner, &out, &first, "", false, 250);
    let rec = confirmed.expect("a matching candidate must be confirmed");
    assert_eq!(rec.pubkey, text);
    assert_eq!(rec.seed, seed);
    assert_eq!(rec.count, 57 + 2 * 256);
    assert_eq!(rec.time_millis, 250);

    // a candidate that does not match the pattern is refused
    let wrong = if first == "z" { "y" } else { "z" };
    assert!(confirm_kernel_output(&base, &owner, &out, wrong, "", false, 250).is_none());
}
