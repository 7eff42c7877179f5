use daily_standup::param::{parse_index, ParseIndexError};
use daily_standup::token::{binary_digits, make_token};

#[test]
fn binary_digits_match_format() {
    for t in [0i64, 1, 2, 5, 1500000000, -1, -2, i64::MIN, i64::MAX] {
        assert_eq!(binary_digits(t), format!("{:b}", t).into_bytes());
    }
    assert_eq!(binary_digits(5), b"101".to_vec());
    assert_eq!(binary_digits(0), b"0".to_vec());
}

#[test]
fn token_is_base64_of_sha256() {
    let t = make_token(&"hana".to_string(), &"abc123".to_string(), -1);
    assert_eq!(t, "Y1CH2bfek48d6m0qraDh0c27mdmsUdMA6Z2YOfAnlsc=");
}

#[test]
fn token_depends_on_time() {
    let a = make_token(&"taro".to_string(), &"secret".to_string(), 0);
    let b = make_token(&"taro".to_string(), &"secret".to_string(), 1500000000);
    assert_ne!(a, b);
}

#[test]
fn parse_index_reads_decimal() {
    assert_eq!(parse_index("0"), Ok(0));
    assert_eq!(parse_index("12"), Ok(12));
    assert_eq!(parse_index("+7"), Ok(7));
    assert_eq!(parse_index("007"), Ok(7));
    assert_eq!(parse_index("18446744073709551615"), Ok(usize::MAX));
}

#[test]
fn parse_index_errors() {
    assert_eq!(parse_index(""), Err(ParseIndexError::Empty));
    assert_eq!(parse_index("+"), Err(ParseIndexError::InvalidDigit));
    assert_eq!(parse_index("-"), Err(ParseIndexError::InvalidDigit));
    assert_eq!(parse_index("-1"), Err(ParseIndexError::InvalidDigit));
    assert_eq!(parse_index("1a"), Err(ParseIndexError::InvalidDigit));
    assert_eq!(parse_index(" 1"), Err(ParseIndexError::InvalidDigit));
    assert_eq!(parse_index("一"), Err(ParseIndexError::InvalidDigit));
    assert_eq!(parse_index("18446744073709551616"), Err(ParseIndexError::PosOverflow));
}

#[test]
fn parse_index_agrees_with_std() {
    for s in ["", "0", "42", "+5", "+", "-", "-0", "9x", "18446744073709551615", "18446744073709551616", "99999999999999999999x"] {
        let ours = parse_index(s).ok();
        let std = s.parse::<usize>().ok();
        assert_eq!(ours, std, "{}", s);
    }
}
