use fake_codex_app_server::decimal::{parse_u64, DecimalError};

#[test]
fn reads_plain_and_signed_numbers() {
    assert_eq!(parse_u64("0"), Ok(0));
    assert_eq!(parse_u64("250"), Ok(250));
    assert_eq!(parse_u64("+7"), Ok(7));
    assert_eq!(parse_u64("00042"), Ok(42));
    assert_eq!(parse_u64("18446744073709551615"), Ok(u64::MAX));
}

#[test]
fn names_what_is_wrong_with_a_number() {
    assert_eq!(parse_u64(""), Err(DecimalError::Empty));
    assert_eq!(parse_u64("+"), Err(DecimalError::InvalidDigit));
    assert_eq!(parse_u64("-1"), Err(DecimalError::InvalidDigit));
    assert_eq!(parse_u64("12x"), Err(DecimalError::InvalidDigit));
    assert_eq!(parse_u64(" 1"), Err(DecimalError::InvalidDigit));
    assert_eq!(parse_u64("18446744073709551616"), Err(DecimalError::TooLarge));
    assert_eq!(parse_u64("99999999999999999999x"), Err(DecimalError::TooLarge));
    assert_eq!(parse_u64("1844674407370955162x"), Err(DecimalError::InvalidDigit));
}

#[test]
fn agrees_with_the_standard_parser() {
    for text in [
        "", "+", "-", "0", "1", "+0", "-0", "++1", "1+", "9", "10", "007", "1_000", "\u{0663}",
        "18446744073709551614", "18446744073709551615", "18446744073709551616",
        "+18446744073709551615", "28446744073709551615", "000000000000000000000000000001",
        "99999999999999999999x", "1844674407370955162x", "184467440737095516150x", "x", "0x10",
    ] {
        match (parse_u64(text), text.parse::<u64>()) {
            (Ok(ours), Ok(theirs)) => assert_eq!(ours, theirs, "{text}"),
            (Err(ours), Err(theirs)) => assert_eq!(ours.message(), theirs.to_string(), "{text}"),
            (ours, theirs) => panic!("{text}: {ours:?} against {theirs:?}"),
        }
    }
}
