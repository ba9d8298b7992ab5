use packed64::utils::{cleanup_hex_string, parse_hex, HexParseError};

#[test]
fn parses_plain_digits() {
    assert_eq!(parse_hex("0"), Ok(0));
    assert_eq!(parse_hex("1"), Ok(1));
    assert_eq!(parse_hex("10"), Ok(16));
}

#[test]
fn parses_both_letter_cases() {
    assert_eq!(parse_hex("f"), Ok(15));
    assert_eq!(parse_hex("F"), Ok(15));
    assert_eq!(parse_hex("dead"), Ok(0xDEAD));
    assert_eq!(parse_hex("DeAd"), Ok(0xDEAD));
}

#[test]
fn parses_full_width_values() {
    assert_eq!(parse_hex("0123456789abcdef"), Ok(0x0123_4567_89AB_CDEF));
    assert_eq!(parse_hex("FFFFFFFFFFFFFFFF"), Ok(u64::MAX));
    assert_eq!(parse_hex("0000000000000000"), Ok(0));
}

#[test]
fn accepts_a_leading_plus_sign() {
    assert_eq!(parse_hex("+1A"), Ok(26));
    assert_eq!(parse_hex("+0"), Ok(0));
}

#[test]
fn leading_zeroes_do_not_overflow() {
    assert_eq!(parse_hex("00000000000000000000000000000001"), Ok(1));
}

#[test]
fn rejects_the_empty_string() {
    assert_eq!(parse_hex(""), Err(HexParseError::Empty));
}

#[test]
fn rejects_a_bare_plus_sign() {
    assert_eq!(parse_hex("+"), Err(HexParseError::InvalidDigit));
}

#[test]
fn rejects_non_digits() {
    assert_eq!(parse_hex("G"), Err(HexParseError::InvalidDigit));
    assert_eq!(parse_hex("1G"), Err(HexParseError::InvalidDigit));
    assert_eq!(parse_hex("-1"), Err(HexParseError::InvalidDigit));
    assert_eq!(parse_hex("0x10"), Err(HexParseError::InvalidDigit));
    assert_eq!(parse_hex(" 1"), Err(HexParseError::InvalidDigit));
}

#[test]
fn rejects_values_past_64_bits() {
    assert_eq!(parse_hex("10000000000000000"), Err(HexParseError::Overflow));
    assert_eq!(parse_hex("FFFFFFFFFFFFFFFFF"), Err(HexParseError::Overflow));
}

#[test]
fn invalid_digit_wins_where_the_scan_meets_it_first() {
    // Sixteen digits fit exactly; the scan reaches the bad character before
    // any multiplication would overflow.
    assert_eq!(parse_hex("FFFFFFFFFFFFFFFFG"), Err(HexParseError::InvalidDigit));
    // Here the seventeenth digit already overflows before the bad character.
    assert_eq!(parse_hex("FFFFFFFFFFFFFFFF0G"), Err(HexParseError::Overflow));
}

#[test]
fn cleanup_uppercases_and_keeps_register_characters() {
    assert_eq!(cleanup_hex_string("dead beef".to_string()), "DEADBEEF");
    assert_eq!(cleanup_hex_string("0xab".to_string()), "0AB");
    assert_eq!(cleanup_hex_string("12-34".to_string()), "1234");
}

#[test]
fn cleanup_drops_what_no_register_uses() {
    assert_eq!(cleanup_hex_string("ghij".to_string()), "");
    assert_eq!(cleanup_hex_string("".to_string()), "");
    assert_eq!(cleanup_hex_string("G1h2".to_string()), "12");
}

#[test]
fn cleanup_goes_through_unicode_uppercasing() {
    // The double-f ligature uppercases to the two letters FF, which both
    // survive the cleanup.
    assert_eq!(cleanup_hex_string("\u{FB00}".to_string()), "FF");
}
