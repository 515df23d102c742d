use rust_web_dev::digits::ParseFailure;
use rust_web_dev::digits::parse_u32;
use rust_web_dev::digits::u16_to_dec;

#[test]
fn parses_plain_numbers() {
    assert_eq!(parse_u32("0"), Ok(0));
    assert_eq!(parse_u32("1"), Ok(1));
    assert_eq!(parse_u32("23505"), Ok(23505));
    assert_eq!(parse_u32("007"), Ok(7));
}

#[test]
fn accepts_a_leading_plus() {
    assert_eq!(parse_u32("+123"), Ok(123));
    assert_eq!(parse_u32("+0"), Ok(0));
}

#[test]
fn empty_input_is_empty() {
    assert_eq!(parse_u32(""), Err(ParseFailure::Empty));
}

#[test]
fn non_digits_are_invalid() {
    assert_eq!(parse_u32("abc"), Err(ParseFailure::InvalidDigit));
    assert_eq!(parse_u32("1x"), Err(ParseFailure::InvalidDigit));
    assert_eq!(parse_u32("-1"), Err(ParseFailure::InvalidDigit));
    assert_eq!(parse_u32("+"), Err(ParseFailure::InvalidDigit));
    assert_eq!(parse_u32(" 1"), Err(ParseFailure::InvalidDigit));
}

#[test]
fn values_beyond_u32_overflow() {
    assert_eq!(parse_u32("4294967295"), Ok(u32::MAX));
    assert_eq!(parse_u32("4294967296"), Err(ParseFailure::Overflow));
    assert_eq!(parse_u32("99999999999"), Err(ParseFailure::Overflow));
}

#[test]
fn agrees_with_std_parsing() {
    for s in ["0", "42", "23505", "+17", "", "x", "4294967295", "4294967296"] {
        match (parse_u32(s), s.parse::<u32>()) {
            (Ok(a), Ok(b)) => assert_eq!(a, b),
            (Err(_), Err(_)) => {}
            (mine, std_result) => {
                panic!("disagree on {:?}: {:?} vs {:?}", s, mine, std_result)
            }
        }
    }
}

#[test]
fn renders_decimals() {
    assert_eq!(u16_to_dec(0), "0");
    assert_eq!(u16_to_dec(7), "7");
    assert_eq!(u16_to_dec(422), "422");
    assert_eq!(u16_to_dec(10000), "10000");
    assert_eq!(u16_to_dec(u16::MAX), "65535");
}
