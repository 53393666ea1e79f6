//! Text, hexadecimal, instants, digests and parameters.

use unidpp_archive::hash::{sha256, sha256_text};
use unidpp_archive::params::Params;
use unidpp_archive::text::{
    char_is_control, char_is_space, decimal_u64, padded_u64, parse_number, take_prefix, trim,
    trim_trailing,
};
use unidpp_archive::{hex_decode, hex_encode, Timestamp};

#[test]
fn character_classes_are_those_of_unicode() {
    for n in 0..=0x10ffffu32 {
        if let Some(c) = char::from_u32(n) {
            assert_eq!(char_is_space(c), c.is_whitespace(), "{n:x}");
            assert_eq!(char_is_control(c), c.is_control(), "{n:x}");
        }
    }
}

#[test]
fn trimming_takes_unicode_white_space() {
    for s in ["", " ", "a", " a ", "\u{3000}a b\u{a0}\n", "\u{85}\u{2028}", "a\u{200b}"] {
        assert_eq!(trim(s), s.trim());
    }
    assert_eq!(trim_trailing("http://x//", '/'), "http://x");
    assert_eq!(trim_trailing("///", '/'), "");
    assert_eq!(trim_trailing("a/b", '/'), "a/b");
    assert_eq!(take_prefix("äöü", 2), "äö");
    assert_eq!(take_prefix("ab", 3), "ab");
}

#[test]
fn numbers_are_written_and_read_in_decimal() {
    for n in [0, 9, 10, 42, 1_000_000_007, u64::MAX] {
        assert_eq!(decimal_u64(n), n.to_string());
        assert_eq!(parse_number(&n.to_string(), u64::MAX), Some(n));
    }
    assert_eq!(padded_u64(7, 4), "0007");
    assert_eq!(padded_u64(12345, 4), "12345");
    for s in ["", "+", "-", "-1", "1a", " 1", "18446744073709551616", "٣"] {
        assert_eq!(parse_number(s, u64::MAX), s.parse::<u64>().ok(), "{s}");
    }
    assert_eq!(parse_number("+007", u64::MAX), "+007".parse::<u64>().ok());
    assert_eq!(parse_number("256", 255), None);
    assert_eq!(parse_number("255", 255), Some(255));
}

#[test]
fn hexadecimal_text_round_trips() {
    let bytes: Vec<u8> = (0..=255).collect();
    let text = hex_encode(&bytes);
    assert_eq!(&text[..8], "00010203");
    assert_eq!(&text[508..], "feff");
    assert_eq!(hex_decode(&text).unwrap(), bytes);
    assert_eq!(hex_decode(&text.to_uppercase()).unwrap(), bytes);
    assert_eq!(hex_decode("").unwrap(), Vec::<u8>::new());
    assert_eq!(hex_decode("abc").unwrap_err(), "odd hex length");
    assert_eq!(hex_decode("0g").unwrap_err(), "invalid hex digit");
}

#[test]
fn digests_are_sha_256() {
    assert_eq!(
        sha256(b"").hex(),
        "e3b0c44298fc1c149afbf4c8996fb92427ae41e4649b934ca495991b7852b855"
    );
    assert_eq!(
        sha256(b"abc").hex(),
        "ba7816bf8f01cfea414140de5dae2223b00361a396177a9cb410ff61f20015ad"
    );
    assert_eq!(sha256_text("é"), sha256("é".as_bytes()));
    let h = sha256(b"abc");
    assert_eq!(unidpp_archive::hash::Hash::from_hex(&h.hex()), Some(h));
    assert_eq!(unidpp_archive::hash::Hash::from_hex(&h.hex().to_uppercase()), Some(h));
    assert_eq!(unidpp_archive::hash::Hash::from_hex("abc"), None);
    assert_eq!(unidpp_archive::hash::Hash::from_hex(&h.hex()[..62]), None);
    assert!(h.same(&sha256(b"abc")));
    assert!(!h.same(&sha256(b"abd")));
}

#[test]
fn instants_are_written_in_rfc_3339() {
    for (secs, text) in [
        (0, "1970-01-01T00:00:00Z"),
        (-1, "1969-12-31T23:59:59Z"),
        (951_782_400, "2000-02-29T00:00:00Z"),
        (1_900_000_000, "2030-03-17T17:46:40Z"),
        (253_402_300_799, "9999-12-31T23:59:59Z"),
        (-62_167_219_200, "0000-01-01T00:00:00Z"),
    ] {
        assert_eq!(Timestamp::from_secs(secs).to_string(), text);
        assert_eq!(Timestamp::parse(text).unwrap(), Timestamp::from_secs(secs));
    }
    let mut secs = -62_167_219_200i64;
    while secs <= 253_402_300_799 {
        let t = Timestamp::from_secs(secs);
        assert_eq!(Timestamp::parse(&t.to_string()), Ok(t));
        secs += 1_234_567_891;
    }
}

#[test]
fn instants_are_read_with_zone_fraction_or_as_a_date() {
    let t = Timestamp::from_secs(1_788_775_200);
    assert_eq!(Timestamp::parse("2026-09-07T10:00:00Z"), Ok(t));
    assert_eq!(Timestamp::parse("2026-09-07T12:00:00+02:00"), Ok(t));
    assert_eq!(Timestamp::parse("2026-09-07T05:30:00-04:30"), Ok(t));
    assert_eq!(Timestamp::parse("2026-09-07T10:00:00.999Z"), Ok(t));
    assert_eq!(
        Timestamp::parse("2026-09-07"),
        Ok(Timestamp::from_secs(1_788_739_200))
    );
    for s in [
        "", "nope", "2026-13-01", "2026-02-29", "2026-00-10", "2026-09-00", "2026-09-07T10:00:00",
        "2026-09-07T24:00:00Z", "2026-09-07T10:60:00Z", "2026-09-07 ", "26-09-07",
    ] {
        assert_eq!(
            Timestamp::parse(s),
            Err(format!("`{s}` is not an RFC 3339 instant")),
            "{s}"
        );
    }
}

#[test]
fn an_instant_that_cannot_be_written_is_not_read() {
    // The zone moves these over the ends of the years that have four digits.
    for s in ["9999-12-31T23:59:59-23:59", "0000-01-01T00:00:00+00:01"] {
        assert_eq!(
            Timestamp::parse(s),
            Err(format!("`{s}` is not an RFC 3339 instant"))
        );
    }
    for s in ["9999-12-31T23:59:59Z", "0000-01-01T00:00:00Z"] {
        assert_eq!(Timestamp::parse(s).unwrap().to_string(), s);
    }
}

#[test]
fn the_later_setting_of_a_parameter_counts() {
    let mut p = Params::new();
    assert_eq!(p.get("at"), None);
    p.insert("at", "1");
    p.insert("asof", "2");
    p.insert("at", "3");
    assert_eq!(p.get("at"), Some("3"));
    assert_eq!(p.get("asof"), Some("2"));
    assert_eq!(p.get("a"), None);
}
