use birber::decimal::{i64_to_decimal, parse_i64, parse_u64, u64_to_decimal};

#[test]
fn parse_u64_accepts_what_std_accepts() {
    for s in ["0", "7", "+12", "0012", "1700000000000", "18446744073709551615"] {
        assert_eq!(parse_u64(s), s.parse::<u64>().ok(), "{}", s);
    }
    assert_eq!(parse_u64("1700000000000"), Some(1700000000000));
}

#[test]
fn parse_u64_rejects_what_std_rejects() {
    for s in ["", "+", "-1", "12a", " 1", "18446744073709551616", "1.5", "٣"] {
        assert_eq!(parse_u64(s), None, "{}", s);
        assert!(s.parse::<u64>().is_err());
    }
}

#[test]
fn parse_i64_matches_std() {
    for s in [
        "0", "-0", "+5", "-5", "42", "9223372036854775807", "-9223372036854775808",
        "9223372036854775808", "-9223372036854775809", "", "-", "+", "+-1", "1-", "abc",
    ] {
        assert_eq!(parse_i64(s), s.parse::<i64>().ok(), "{}", s);
    }
    assert_eq!(parse_i64("-9223372036854775808"), Some(i64::MIN));
}

#[test]
fn decimal_rendering_matches_to_string() {
    for n in [0i64, 5, -5, 10, 99, -100, 123456789, i64::MAX, i64::MIN] {
        assert_eq!(i64_to_decimal(n), n.to_string());
    }
    for n in [0u64, 9, 10, 1700000000000, u64::MAX] {
        assert_eq!(u64_to_decimal(n), n.to_string());
    }
}

#[test]
fn decimal_round_trip() {
    for n in [0i64, 1, -1, 4711, i64::MAX, i64::MIN] {
        assert_eq!(parse_i64(&i64_to_decimal(n)), Some(n));
    }
    for n in [0u64, 1735689600000, u64::MAX] {
        assert_eq!(parse_u64(&u64_to_decimal(n)), Some(n));
    }
}
