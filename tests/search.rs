use ed25519_dalek::SigningKey;
use vanity_keys::coordination::SharedState;
use vanity_keys::duration::format_duration;
use vanity_keys::keys::{encode_base58, Candidate};
use vanity_keys::predicate::MatchPredicate;
use vanity_keys::worker::{Outcome, ResultRecord, Worker};

fn fixed_keypair() -> Vec<u8> {
    SigningKey::from_bytes(&[7u8; 32]).to_keypair_bytes().to_vec()
}

fn record(worker_id: u64, key: &str) -> ResultRecord {
    ResultRecord {
        worker_id,
        tries: 1,
        public_key: key.to_string(),
        keypair: String::from("k"),
    }
}

#[test]
fn base58_known_value() {
    let input = [0x04u8, 0x30, 0x5e, 0x2b, 0x24, 0x73, 0xf0, 0x58];
    assert_eq!(encode_base58(&input), "he11owor1d");
}

#[test]
fn encoding_same_bytes_twice_gives_same_text() {
    let bytes = fixed_keypair();
    let a = encode_base58(&bytes[32..]);
    let b = encode_base58(&bytes[32..]);
    assert_eq!(a, b);
    let c1 = Candidate::from_keypair_bytes(bytes.clone());
    let c2 = Candidate::from_keypair_bytes(bytes);
    assert_eq!(c1.public_key(), c2.public_key());
    assert_eq!(c1.public_key(), a);
}

#[test]
fn candidate_public_key_is_encoded_verifying_key() {
    let sk = SigningKey::from_bytes(&[7u8; 32]);
    let c = Candidate::from_keypair_bytes(sk.to_keypair_bytes().to_vec());
    let expected = bs58::encode(sk.verifying_key().as_bytes()).into_string();
    assert_eq!(c.public_key(), expected);
    assert_eq!(c.encoded_keypair(), bs58::encode(sk.to_keypair_bytes()).into_string());
}

#[test]
fn generated_candidate_is_a_consistent_keypair() {
    let c = Candidate::generate();
    let bytes = bs58::decode(c.encoded_keypair()).into_vec().unwrap();
    assert_eq!(bytes.len(), 64);
    let mut arr = [0u8; 64];
    arr.copy_from_slice(&bytes);
    let sk = SigningKey::from_keypair_bytes(&arr).unwrap();
    assert_eq!(c.public_key(), bs58::encode(sk.verifying_key().as_bytes()).into_string());
}

#[test]
fn prefix_is_folded_to_lowercase() {
    let p = MatchPredicate::new("AbC", false, false);
    assert_eq!(p.prefix, "abc");
    assert!(!p.require_lowercase);
    assert!(!p.require_uppercase);
}

#[test]
fn prefix_ab_matches_any_case() {
    let p = MatchPredicate::new("ab", false, false);
    for key in ["abXyz", "ABxyz", "aBxyz", "Abxyz"] {
        assert!(p.accepts(key), "{}", key);
        assert!(key.to_lowercase().starts_with("ab"));
    }
    assert!(!p.accepts("baxyz"));
    assert!(!p.accepts("xab"));
}

#[test]
fn require_lowercase_rejects_uppercase_segment() {
    let p = MatchPredicate::new("Xy", true, false);
    assert!(!p.accepts("XYabc"));
    assert!(!p.accepts("xYabc"));
    assert!(p.accepts("xyabc"));
    assert!(p.accepts("xyABC"));
}

#[test]
fn require_uppercase_rejects_lowercase_segment() {
    let p = MatchPredicate::new("xy", false, true);
    assert!(p.accepts("XYabc"));
    assert!(!p.accepts("xYabc"));
    assert!(!p.accepts("xyabc"));
}

#[test]
fn digits_are_neither_lowercase_nor_uppercase() {
    let lower = MatchPredicate::new("1a", true, false);
    assert!(!lower.accepts("1abc"));
    let upper = MatchPredicate::new("1a", false, true);
    assert!(!upper.accepts("1Abc"));
    let free = MatchPredicate::new("1a", false, false);
    assert!(free.accepts("1Abc"));
}

#[test]
fn key_shorter_than_prefix_is_rejected() {
    let p = MatchPredicate::new("abc", false, false);
    assert!(!p.accepts("ab"));
    assert!(!p.accepts(""));
    assert!(p.accepts("abc"));
}

#[test]
fn matches_folded_uses_given_fold() {
    let p = MatchPredicate::new("ab", false, false);
    assert!(p.matches_folded("XYZ", "abz"));
    assert!(!p.matches_folded("abz", "xyz"));
}

#[test]
fn empty_prefix_accepts_every_key() {
    let p = MatchPredicate::new("", false, false);
    assert!(p.accepts("anything"));
    assert!(p.accepts(""));
    let lower = MatchPredicate::new("", true, true);
    assert!(lower.accepts("XYZ"));
}

#[test]
fn empty_prefix_accepts_first_generated_key() {
    let p = MatchPredicate::new("", false, false);
    let mut w = Worker::new(3);
    match w.step(false, &p) {
        Outcome::Found(rec) => {
            assert_eq!(rec.worker_id, 3);
            assert_eq!(rec.tries, 1);
            assert!(!rec.public_key.is_empty());
        }
        _ => panic!("the first key must be accepted"),
    }
    assert_eq!(w.tries(), 1);
}

#[test]
fn consider_builds_record_from_candidate() {
    let bytes = fixed_keypair();
    let c = Candidate::from_keypair_bytes(bytes.clone());
    let key = c.public_key().to_string();
    let p = MatchPredicate::new(&key[..3], false, false);
    let mut w = Worker::new(5);
    match w.consider(&c, &p) {
        Outcome::Found(rec) => {
            assert_eq!(rec.worker_id, 5);
            assert_eq!(rec.tries, 1);
            assert_eq!(rec.public_key, key);
            assert_eq!(rec.keypair, bs58::encode(&bytes).into_string());
            assert!(rec.public_key.to_lowercase().starts_with(&key[..3].to_lowercase()));
        }
        _ => panic!("candidate must match its own prefix"),
    }
}

#[test]
fn stopped_after_flag_is_seen() {
    let p = MatchPredicate::new("", false, false);
    let mut w = Worker::new(1);
    assert!(matches!(w.step(false, &p), Outcome::Found(_)));
    assert!(matches!(w.step(true, &p), Outcome::Stopped));
    assert_eq!(w.tries(), 1);
    assert!(matches!(w.step(true, &p), Outcome::Stopped));
    assert_eq!(w.tries(), 1);
}

#[test]
fn tries_strictly_increase() {
    // '0' is not in the Base58 alphabet, so nothing ever matches.
    let p = MatchPredicate::new("0", false, false);
    let mut w = Worker::new(2);
    assert_eq!(w.tries(), 0);
    for n in 1..=5u64 {
        assert!(matches!(w.step(false, &p), Outcome::Rejected));
        assert_eq!(w.tries(), n);
    }
    assert_eq!(w.id(), 2);
}

#[test]
fn progress_report_every_million_tries() {
    let p = MatchPredicate::new("0", false, false);
    let c = Candidate::from_keypair_bytes(fixed_keypair());
    let mut w = Worker::new(0);
    let mut reports = 0u64;
    for _ in 0..2_000_000u64 {
        assert!(matches!(w.consider(&c, &p), Outcome::Rejected));
        if w.report_due() {
            reports += 1;
        }
    }
    assert_eq!(reports, 2);
    assert_eq!(w.tries(), 2_000_000);
}

#[test]
fn primary_worker_always_logs_others_after_cooldown() {
    let primary = Worker::new(0);
    assert!(primary.should_log(0));
    let other = Worker::new(1);
    assert!(!other.should_log(0));
    assert!(!other.should_log(9_999));
    assert!(other.should_log(10_000));
    assert!(other.should_log(10_001));
}

#[test]
fn simultaneous_matches_publish_exactly_once() {
    let shared = SharedState::new();
    assert!(!shared.is_found());
    let first = shared.publish(record(0, "abc"));
    let second = shared.publish(record(1, "abd"));
    assert!(shared.is_found());
    let first = first.expect("the first record is published");
    assert_eq!(first.worker_id, 0);
    assert_eq!(first.public_key, "abc");
    assert!(second.is_none());
}

#[test]
fn format_duration_values() {
    assert_eq!(format_duration(0), "00:00:00");
    assert_eq!(format_duration(59), "00:00:59");
    assert_eq!(format_duration(3599), "00:59:59");
    assert_eq!(format_duration(3661), "01:01:01");
    assert_eq!(format_duration(359_999), "99:59:59");
    assert_eq!(format_duration(360_000), "100:00:00");
}
