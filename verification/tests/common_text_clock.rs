use osc_uploader::clock::{UtcTimestamp, MAX_UTC_SECS, MIN_UTC_SECS};
use osc_uploader::pki::ca::check_client;
use osc_uploader::substation::renewal::stamp_recent_at;
use osc_uploader::digest::sha256_hex;
use osc_uploader::text::{
    is_white_space_char, push_decimal, push_signed_decimal, starts_with, str_eq, trim,
};

fn ts(secs: i64, nanos: u32) -> UtcTimestamp {
    UtcTimestamp { secs, nanos }
}

#[test]
fn chrono_range_constants_match_chrono() {
    assert_eq!(chrono::DateTime::<chrono::Utc>::MIN_UTC.timestamp(), MIN_UTC_SECS);
    assert_eq!(chrono::DateTime::<chrono::Utc>::MAX_UTC.timestamp(), MAX_UTC_SECS);
}

fn days_left(expiry: UtcTimestamp, now: UtcTimestamp) -> i64 {
    check_client(Some("SE1".to_string()), expiry, &["SE1".to_string()], i64::MAX, now).ok().unwrap().days_remaining
}

#[test]
fn whole_days_match_chrono_num_days() {
    let cases = [
        (ts(100, 0), ts(50, 300_000_000)),
        (ts(50, 0), ts(100, 300_000_000)),
        (ts(-86_401, 5), ts(86_399, 999_999_999)),
        (ts(1_700_000_000, 0), ts(1_600_000_000, 123)),
        (ts(3 * 86_400, 0), ts(86_399, 1_500_000_000)),
    ];
    for (a, b) in cases {
        let da = chrono::DateTime::from_timestamp(a.secs, a.nanos).unwrap();
        let db = chrono::DateTime::from_timestamp(b.secs, b.nanos).unwrap();
        assert_eq!(days_left(a, b), (da - db).num_days(), "{:?} {:?}", a, b);
    }
}

#[test]
fn whole_days_and_hours_round_toward_zero() {
    assert_eq!(days_left(ts(86_400, 0), ts(0, 300_000_000)), 0);
    assert_eq!(days_left(ts(2 * 86_400, 0), ts(0, 0)), 2);
    assert_eq!(days_left(ts(0, 0), ts(86_401, 0)), -1);
    assert_eq!(days_left(ts(0, 0), ts(86_399, 0)), 0);
    assert!(stamp_recent_at(ts(0, 300_000_000), ts(86_400, 0)));
    assert!(!stamp_recent_at(ts(0, 0), ts(86_400, 0)));
    assert!(stamp_recent_at(ts(86_400, 0), ts(0, 0)));
}

#[test]
fn sha256_of_abc() {
    assert_eq!(
        sha256_hex(b"abc"),
        "ba7816bf8f01cfea414140de5dae2223b00361a396177a9cb410ff61f20015ad"
    );
    assert_eq!(
        sha256_hex(b""),
        "e3b0c44298fc1c149afbf4c8996fb92427ae41e4649b934ca495991b7852b855"
    );
}

#[test]
fn text_helpers() {
    assert!(starts_with("d:\\data", "d:"));
    assert!(!starts_with("c:", "d:"));
    assert!(str_eq("x", "x"));
    assert!(!str_eq("x", "y"));
    let mut s = String::new();
    push_decimal(&mut s, 0);
    push_decimal(&mut s, 1234);
    push_signed_decimal(&mut s, -56);
    push_signed_decimal(&mut s, i64::MIN);
    assert_eq!(s, "01234-56-9223372036854775808");
}

#[test]
fn white_space_is_char_is_whitespace() {
    for u in 0u32..=0x10FFFF {
        if let Some(c) = char::from_u32(u) {
            assert_eq!(is_white_space_char(c), c.is_whitespace(), "U+{:04X}", u);
        }
    }
}

#[test]
fn trim_matches_str_trim() {
    for text in ["  2024\n", "\u{3000}x y\u{2028}", "   ", "", "abc", "\t\u{85}a\u{a0}"] {
        assert_eq!(trim(text), text.trim(), "{:?}", text);
    }
    assert_eq!(trim("  2024-01-01T00:00:00Z\r\n"), "2024-01-01T00:00:00Z");
}
