use ainews_rust::parse_number;

#[test]
fn test_parse_number() {
    assert_eq!(parse_number("42"), Ok(42));
    assert_eq!(parse_number(" 123 "), Ok(123));
    assert!(parse_number("abc").is_err());
}

#[test]
fn parse_number_reads_signs() {
    assert_eq!(parse_number("+5"), Ok(5));
    assert_eq!(parse_number("-5"), Ok(-5));
    assert_eq!(parse_number("-0"), Ok(0));
    assert_eq!(parse_number("+0"), Ok(0));
    assert!(parse_number("+").is_err());
    assert!(parse_number("-").is_err());
    assert!(parse_number("--5").is_err());
    assert!(parse_number("+-5").is_err());
    assert!(parse_number("5-").is_err());
}

#[test]
fn parse_number_reads_leading_zeros() {
    assert_eq!(parse_number("0"), Ok(0));
    assert_eq!(parse_number("007"), Ok(7));
    assert_eq!(parse_number("-00000000000000000000012"), Ok(-12));
}

#[test]
fn parse_number_stops_at_the_range_of_i32() {
    assert_eq!(parse_number("2147483647"), Ok(i32::MAX));
    assert_eq!(parse_number("-2147483648"), Ok(i32::MIN));
    assert!(parse_number("2147483648").is_err());
    assert!(parse_number("-2147483649").is_err());
    assert!(parse_number("99999999999999999999").is_err());
}

#[test]
fn parse_number_refuses_what_is_no_numeral() {
    for input in ["", " ", "\t\n", "12a", "a12", "1 2", "1_000", "0x10", "1.0", "1e3", "\u{663}", "\u{ff11}"] {
        assert!(parse_number(input).is_err(), "{:?}", input);
    }
}

#[test]
fn parse_number_drops_white_space_at_both_ends() {
    assert_eq!(parse_number("\t\n\u{b}\u{c}\r 7"), Ok(7));
    assert_eq!(parse_number("7 \r\n"), Ok(7));
    assert_eq!(parse_number("\u{85}\u{a0}\u{1680}-8\u{2000}\u{200a}\u{2028}\u{2029}"), Ok(-8));
    assert_eq!(parse_number("\u{202f}\u{205f}\u{3000}+9\u{3000}"), Ok(9));
}

#[test]
fn parse_number_keeps_what_is_no_white_space() {
    for input in ["\u{200b}7", "7\u{feff}", "\u{180e}7", "\u{1c}7", "7\u{0}", "\u{8}7", "\u{200b}", "\u{2060}7"] {
        assert!(parse_number(input).is_err(), "{:?}", input);
    }
}

fn is_white_space(c: char) -> bool {
    matches!(
        c as u32,
        0x0009..=0x000D
            | 0x0020
            | 0x0085
            | 0x00A0
            | 0x1680
            | 0x2000..=0x200A
            | 0x2028
            | 0x2029
            | 0x202F
            | 0x205F
            | 0x3000
    )
}

#[test]
fn parse_number_drops_exactly_the_white_space_before() {
    for code in 0..=0x10FFFFu32 {
        if let Some(c) = char::from_u32(code) {
            let accepted = is_white_space(c) || c == '+' || c == '-' || c.is_ascii_digit();
            assert_eq!(parse_number(&format!("{}7", c)).is_ok(), accepted, "{:?}", c);
        }
    }
}

#[test]
fn parse_number_drops_exactly_the_white_space_after() {
    for code in 0..=0x10FFFFu32 {
        if let Some(c) = char::from_u32(code) {
            let accepted = is_white_space(c) || c.is_ascii_digit();
            assert_eq!(parse_number(&format!("7{}", c)).is_ok(), accepted, "{:?}", c);
        }
    }
}
