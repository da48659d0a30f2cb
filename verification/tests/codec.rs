use ticket_service::decimal::{digit_of, format_decimal, parse_decimal, push_decimal};
use ticket_service::error::Error;
use ticket_service::text::{same_text, str_chars};
use ticket_service::token::{format_token, is_segment_text, parse_token, Token};

#[test]
fn decimal_reads_plain_digits() {
    assert_eq!(parse_decimal("0"), Some(0));
    assert_eq!(parse_decimal("1"), Some(1));
    assert_eq!(parse_decimal("42"), Some(42));
    assert_eq!(parse_decimal("1234567890"), Some(1234567890));
}

#[test]
fn decimal_accepts_leading_zeros() {
    assert_eq!(parse_decimal("007"), Some(7));
    assert_eq!(parse_decimal("000"), Some(0));
}

#[test]
fn decimal_reads_up_to_the_largest_u64() {
    assert_eq!(parse_decimal("18446744073709551615"), Some(u64::MAX));
    assert_eq!(parse_decimal("18446744073709551614"), Some(u64::MAX - 1));
    assert_eq!(parse_decimal("018446744073709551615"), Some(u64::MAX));
}

#[test]
fn decimal_rejects_what_does_not_fit() {
    assert_eq!(parse_decimal("18446744073709551616"), None);
    assert_eq!(parse_decimal("18446744073709551620"), None);
    assert_eq!(parse_decimal("99999999999999999999"), None);
    assert_eq!(parse_decimal("184467440737095516150"), None);
}

#[test]
fn decimal_rejects_what_is_no_number() {
    assert_eq!(parse_decimal(""), None);
    assert_eq!(parse_decimal("+1"), None);
    assert_eq!(parse_decimal("-1"), None);
    assert_eq!(parse_decimal(" 1"), None);
    assert_eq!(parse_decimal("1 "), None);
    assert_eq!(parse_decimal("1a"), None);
    assert_eq!(parse_decimal("user-1"), None);
    assert_eq!(parse_decimal("1.0"), None);
    assert_eq!(parse_decimal("\u{0661}"), None);
    assert_eq!(parse_decimal("\u{ff11}"), None);
}

#[test]
fn digit_of_knows_the_ten_digits() {
    assert_eq!(digit_of('0'), Some(0));
    assert_eq!(digit_of('5'), Some(5));
    assert_eq!(digit_of('9'), Some(9));
    assert_eq!(digit_of('/'), None);
    assert_eq!(digit_of(':'), None);
    assert_eq!(digit_of('a'), None);
    assert_eq!(digit_of('.'), None);
}

#[test]
fn decimal_writes_the_shortest_text() {
    assert_eq!(format_decimal(0), "0");
    assert_eq!(format_decimal(7), "7");
    assert_eq!(format_decimal(10), "10");
    assert_eq!(format_decimal(1700000000123), "1700000000123");
    assert_eq!(format_decimal(u64::MAX as u128), "18446744073709551615");
    assert_eq!(format_decimal(u128::MAX), "340282366920938463463374607431768211455");
}

#[test]
fn decimal_text_is_what_to_string_gives() {
    for n in [0u128, 9, 10, 99, 100, 101, 65535, 4294967296, u128::MAX / 3] {
        assert_eq!(format_decimal(n), n.to_string());
    }
}

#[test]
fn push_decimal_appends() {
    let mut s = String::from("id=");
    push_decimal(305, &mut s);
    assert_eq!(s, "id=305");
    push_decimal(0, &mut s);
    assert_eq!(s, "id=3050");
}

#[test]
fn decimal_round_trip() {
    for n in [0u64, 1, 9, 10, 11, 12345, u64::MAX / 2, u64::MAX] {
        assert_eq!(parse_decimal(&format_decimal(n as u128)), Some(n));
    }
}

#[test]
fn text_helpers() {
    assert_eq!(str_chars("a.b"), vec!['a', '.', 'b']);
    assert_eq!(str_chars(""), Vec::<char>::new());
    assert_eq!(str_chars("\u{e9}x"), vec!['\u{e9}', 'x']);
    assert!(same_text("demo1", "demo1"));
    assert!(same_text("", ""));
    assert!(!same_text("demo1", "demo2"));
    assert!(!same_text("demo1", "demo"));
    assert!(!same_text("demo", "demo1"));
    assert!(!same_text("Demo1", "demo1"));
}

#[test]
fn segment_texts() {
    assert!(is_segment_text("exp"));
    assert!(is_segment_text("a b"));
    assert!(!is_segment_text(""));
    assert!(!is_segment_text("."));
    assert!(!is_segment_text("a.b"));
    assert!(!is_segment_text("ab."));
}

#[test]
fn token_is_taken_apart() {
    let token = parse_token("1.exp.sign").unwrap();
    assert_eq!(token.subject_id(), 1);
    assert_eq!(token.expiry(), "exp");
    assert_eq!(token.signature(), "sign");

    let token = parse_token("18446744073709551615.2030-01-01T00:00:00Z.c2lnbg==").unwrap();
    assert_eq!(token.subject_id(), u64::MAX);
    assert_eq!(token.expiry(), "2030-01-01T00:00:00Z");
    assert_eq!(token.signature(), "c2lnbg==");
}

#[test]
fn token_segments_are_opaque() {
    let token = parse_token("0042. \u{e9}t\u{e9} .\u{1f600}").unwrap();
    assert_eq!(token.subject_id(), 42);
    assert_eq!(token.expiry(), " \u{e9}t\u{e9} ");
    assert_eq!(token.signature(), "\u{1f600}");
}

#[test]
fn token_needs_exactly_three_segments() {
    for raw in ["", "1", "1.exp", "1.exp.sign.more", "1.exp.sign.", ".1.exp.sign", "..", "..."] {
        assert_eq!(parse_token(raw).unwrap_err(), Error::AuthFailTokenWrongFormat, "{raw:?}");
    }
}

#[test]
fn token_segments_must_not_be_empty() {
    for raw in [".exp.sign", "1..sign", "1.exp.", "1..", "..sign", ".exp."] {
        assert_eq!(parse_token(raw).unwrap_err(), Error::AuthFailTokenWrongFormat, "{raw:?}");
    }
}

#[test]
fn token_subject_must_be_a_number() {
    for raw in [
        "user-1.exp.sign",
        "x.exp.sign",
        "-1.exp.sign",
        "+1.exp.sign",
        "1 .exp.sign",
        "0x1.exp.sign",
        "18446744073709551616.exp.sign",
    ] {
        assert_eq!(parse_token(raw).unwrap_err(), Error::AuthFailTokenWrongFormat, "{raw:?}");
    }
}

#[test]
fn token_is_put_together() {
    let token = Token::new(7, "exp".to_string(), "sign".to_string()).unwrap();
    assert_eq!(format_token(&token), "7.exp.sign");
    let token = Token::new(0, "e".to_string(), "s".to_string()).unwrap();
    assert_eq!(format_token(&token), "0.e.s");
    let token = Token::new(u64::MAX, "e e".to_string(), "s-s".to_string()).unwrap();
    assert_eq!(format_token(&token), "18446744073709551615.e e.s-s");
}

#[test]
fn token_new_checks_the_segments() {
    assert!(Token::new(1, "exp".to_string(), "sign".to_string()).is_ok());
    for (expiry, signature) in [("", "sign"), ("exp", ""), ("e.x", "sign"), ("exp", "si.gn"), ("", "")] {
        let r = Token::new(1, expiry.to_string(), signature.to_string());
        assert_eq!(r.unwrap_err(), Error::AuthFailTokenWrongFormat);
    }
}

#[test]
fn token_round_trip() {
    for (id, expiry, signature) in [(0u64, "exp", "sign"), (1, "e", "s"), (u64::MAX, "2031", "\u{e9}")] {
        let token = Token::new(id, expiry.to_string(), signature.to_string()).unwrap();
        let back = parse_token(&format_token(&token)).unwrap();
        assert_eq!(back.subject_id(), id);
        assert_eq!(back.expiry(), expiry);
        assert_eq!(back.signature(), signature);
    }
}

#[test]
fn token_text_with_leading_zeros_is_normalised() {
    let token = parse_token("007.exp.sign").unwrap();
    assert_eq!(format_token(&token), "7.exp.sign");
}
