use chrono::{DateTime, Utc};
use connect4::utils::{
    add_seconds, generate_invite_code, with_detail, new_random_token, sha256_hash, utc_now, Timestamp, MAX_DELTA_SECONDS,
    MAX_TIMESTAMP, MIN_TIMESTAMP,
};

#[test]
fn sha256_hash_is_lowercase_hex_of_the_digest() {
    assert_eq!(
        sha256_hash("abc"),
        "ba7816bf8f01cfea414140de5dae2223b00361a396177a9cb410ff61f20015ad"
    );
    assert_eq!(
        sha256_hash(""),
        "e3b0c44298fc1c149afbf4c8996fb92427ae41e4649b934ca495991b7852b855"
    );
    assert_eq!(sha256_hash("héllo").len(), 64);
    assert_eq!(sha256_hash("héllo"), sha256_hash("héllo"));
    assert_ne!(sha256_hash("a"), sha256_hash("b"));
}

#[test]
fn invite_codes_are_letters_and_digits() {
    for n in [0u8, 1, 6, 40] {
        let code = generate_invite_code(n).unwrap();
        assert_eq!(code.chars().count(), n as usize);
        assert!(code.chars().all(|c| c.is_ascii_alphanumeric()));
    }
}

#[test]
fn random_tokens_are_v4_uuids() {
    let t = new_random_token().unwrap();
    assert_eq!(t.len(), 36);
    let parsed = uuid::Uuid::parse_str(&t).unwrap();
    assert_eq!(parsed.get_version_num(), 4);
    assert_eq!(parsed.to_string(), t);
    for (i, c) in t.chars().enumerate() {
        if [8, 13, 18, 23].contains(&i) {
            assert_eq!(c, '-');
        } else {
            assert!(c.is_ascii_digit() || ('a'..='f').contains(&c));
        }
    }
    assert_eq!(t.chars().nth(14), Some('4'));
    assert_ne!(new_random_token().unwrap(), t);
}

#[test]
fn seconds_are_added_to_instants() {
    let t = Timestamp { secs: 1_700_000_000, nanos: 123 };
    assert_eq!(add_seconds(t, 3600), Timestamp { secs: 1_700_003_600, nanos: 123 });
    assert_eq!(add_seconds(t, -1_700_000_000), Timestamp { secs: 0, nanos: 123 });
}

#[test]
fn the_instant_range_is_chronos() {
    assert_eq!(DateTime::<Utc>::MIN_UTC.timestamp(), MIN_TIMESTAMP);
    assert_eq!(DateTime::<Utc>::MAX_UTC.timestamp(), MAX_TIMESTAMP);
    assert_eq!(chrono::TimeDelta::MAX.num_seconds(), MAX_DELTA_SECONDS);
    let lowest = Timestamp { secs: MIN_TIMESTAMP + 10, nanos: 0 };
    assert_eq!(add_seconds(lowest, -10).secs, MIN_TIMESTAMP);
    let highest = Timestamp { secs: MAX_TIMESTAMP - 10, nanos: 999_999_999 };
    assert_eq!(add_seconds(highest, 10), Timestamp { secs: MAX_TIMESTAMP, nanos: 999_999_999 });
    assert!(DateTime::<Utc>::from_timestamp(MIN_TIMESTAMP, 0).is_some());
    assert!(DateTime::<Utc>::from_timestamp(MIN_TIMESTAMP - 1, 0).is_none());
    assert!(DateTime::<Utc>::from_timestamp(MAX_TIMESTAMP, 999_999_999).is_some());
    assert!(DateTime::<Utc>::from_timestamp(MAX_TIMESTAMP + 1, 0).is_none());
    let first_day = DateTime::<Utc>::MIN_UTC + chrono::TimeDelta::seconds(3600);
    assert!(first_day.checked_add_signed(chrono::TimeDelta::seconds(-3600)).is_some());
    assert!(first_day.checked_add_signed(chrono::TimeDelta::seconds(-3601)).is_none());
}

#[test]
fn the_clock_reads_an_instant_chrono_holds() {
    let before = Utc::now().timestamp();
    let now = utc_now().unwrap();
    let after = Utc::now().timestamp();
    assert!(before <= now.secs && now.secs <= after);
    assert!(now.nanos < 1_000_000_000);
}

#[test]
fn a_failure_names_what_failed_then_the_error() {
    assert_eq!(
        with_detail("could not initialize ThreadRng", "no entropy".to_string()),
        "could not initialize ThreadRng: no entropy"
    );
    assert_eq!(with_detail("a", String::new()), "a: ");
}
