use itchat::utils::text::{i64_to_string, parse_i64, parse_u64, u64_to_string};

#[test]
fn decimal_text_of_integers() {
    assert_eq!(u64_to_string(0), "0");
    assert_eq!(u64_to_string(1050), "1050");
    assert_eq!(u64_to_string(u64::MAX), "18446744073709551615");
    assert_eq!(i64_to_string(i64::MIN), "-9223372036854775808");
    assert_eq!(i64_to_string(-1), "-1");
}

#[test]
fn parsing_matches_std() {
    for s in ["0", "+12", "007", "", "+", "-1", "18446744073709551615", "18446744073709551616", "1 2", "99x"] {
        assert_eq!(parse_u64(s), s.parse::<u64>().ok(), "{s}");
    }
    for s in ["0", "-0", "+12", "-", "-9223372036854775808", "-9223372036854775809", "9223372036854775807", "9223372036854775808", "--1"] {
        assert_eq!(parse_i64(s), s.parse::<i64>().ok(), "{s}");
    }
}

#[test]
fn decimal_round_trip() {
    for n in [0u64, 9, 10, 65535, 1 << 40, u64::MAX] {
        assert_eq!(parse_u64(&u64_to_string(n)), Some(n));
    }
    for n in [0i64, -5, i64::MIN, i64::MAX] {
        assert_eq!(parse_i64(&i64_to_string(n)), Some(n));
    }
}
