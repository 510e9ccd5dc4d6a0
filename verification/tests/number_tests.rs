use blast::number::{i64_to_text, parse_i64, parse_u16, parse_u32, parse_u64, push_padded4, u64_to_text, IntErrorKind};

#[test]
fn parse_i64_reads_signed_decimals() {
    assert_eq!(parse_i64("42"), Ok(42));
    assert_eq!(parse_i64("+42"), Ok(42));
    assert_eq!(parse_i64("-42"), Ok(-42));
    assert_eq!(parse_i64("0"), Ok(0));
    assert_eq!(parse_i64("9223372036854775807"), Ok(i64::MAX));
    assert_eq!(parse_i64("-9223372036854775808"), Ok(i64::MIN));
}

#[test]
fn parse_i64_reports_each_error_kind() {
    assert_eq!(parse_i64(""), Err(IntErrorKind::Empty));
    assert_eq!(parse_i64("-"), Err(IntErrorKind::InvalidDigit));
    assert_eq!(parse_i64("+"), Err(IntErrorKind::InvalidDigit));
    assert_eq!(parse_i64("12a"), Err(IntErrorKind::InvalidDigit));
    assert_eq!(parse_i64(" 1"), Err(IntErrorKind::InvalidDigit));
    assert_eq!(parse_i64("9223372036854775808"), Err(IntErrorKind::PosOverflow));
    assert_eq!(parse_i64("-9223372036854775809"), Err(IntErrorKind::NegOverflow));
}

#[test]
fn parse_unsigned_follows_std() {
    assert_eq!(parse_u64("18446744073709551615"), Ok(u64::MAX));
    assert_eq!(parse_u64("18446744073709551616"), Err(IntErrorKind::PosOverflow));
    assert_eq!(parse_u64("-1"), Err(IntErrorKind::InvalidDigit));
    assert_eq!(parse_u32("4294967295"), Ok(u32::MAX));
    assert_eq!(parse_u32("4294967296"), Err(IntErrorKind::PosOverflow));
    assert_eq!(parse_u16("65535"), Ok(65535));
    assert_eq!(parse_u16("65536"), Err(IntErrorKind::PosOverflow));
    assert_eq!(parse_u16("+7"), Ok(7));
    assert_eq!(parse_u16(""), Err(IntErrorKind::Empty));
}

#[test]
fn parse_agrees_with_std_on_samples() {
    for s in ["0", "17", "-17", "+3", "", "x", "99999999999999999999", "-99999999999999999999", "1 2"] {
        assert_eq!(parse_i64(s).ok(), s.parse::<i64>().ok());
        assert_eq!(parse_u64(s).ok(), s.parse::<u64>().ok());
        assert_eq!(parse_u16(s).ok(), s.parse::<u16>().ok());
    }
}

#[test]
fn error_messages_match_std() {
    assert_eq!(IntErrorKind::Empty.message(), "".parse::<i64>().unwrap_err().to_string());
    assert_eq!(IntErrorKind::InvalidDigit.message(), "a".parse::<i64>().unwrap_err().to_string());
    assert_eq!(IntErrorKind::PosOverflow.message(), "99999999999999999999".parse::<i64>().unwrap_err().to_string());
    assert_eq!(IntErrorKind::NegOverflow.message(), "-99999999999999999999".parse::<i64>().unwrap_err().to_string());
}

#[test]
fn numbers_print_as_to_string() {
    assert_eq!(u64_to_text(0), "0");
    assert_eq!(u64_to_text(1234567890), "1234567890");
    assert_eq!(u64_to_text(u64::MAX), u64::MAX.to_string());
    assert_eq!(i64_to_text(-305), "-305");
    assert_eq!(i64_to_text(i64::MIN), i64::MIN.to_string());
}

#[test]
fn printed_numbers_read_back() {
    for n in [0u64, 9, 10, 4096, u64::MAX] {
        assert_eq!(parse_u64(u64_to_text(n).as_str()), Ok(n));
    }
    for n in [0i64, -1, 77, i64::MIN, i64::MAX] {
        assert_eq!(parse_i64(i64_to_text(n).as_str()), Ok(n));
    }
}

#[test]
fn padded_to_four_digits() {
    let mut s = String::from("n");
    push_padded4(&mut s, 7);
    assert_eq!(s, "n0007");
    let mut t = String::new();
    push_padded4(&mut t, 12345);
    assert_eq!(t, "12345");
    let mut u = String::new();
    push_padded4(&mut u, 100);
    assert_eq!(u, format!("{:04}", 100));
}
