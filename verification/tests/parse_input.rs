use guessing_game::parse::parse_line;

#[test]
fn plain_numbers_parse() {
    assert_eq!(parse_line(b"30"), Some(30));
    assert_eq!(parse_line(b"50"), Some(50));
    assert_eq!(parse_line(b"70"), Some(70));
    assert_eq!(parse_line(b"007"), Some(7));
    assert_eq!(parse_line(b"0"), Some(0));
}

#[test]
fn surrounding_whitespace_is_trimmed() {
    assert_eq!(parse_line(b"42\n"), Some(42));
    assert_eq!(parse_line(b"  42  "), Some(42));
    assert_eq!(parse_line(b"\t42\r\n"), Some(42));
}

#[test]
fn signs_are_accepted() {
    assert_eq!(parse_line(b"+7"), Some(7));
    assert_eq!(parse_line(b"-3"), Some(-3));
    assert_eq!(parse_line(b" -3 "), Some(-3));
}

#[test]
fn extreme_values_parse_exactly() {
    assert_eq!(parse_line(b"2147483647"), Some(i32::MAX));
    assert_eq!(parse_line(b"-2147483648"), Some(i32::MIN));
}

#[test]
fn overflowing_values_are_rejected() {
    assert_eq!(parse_line(b"2147483648"), None);
    assert_eq!(parse_line(b"-2147483649"), None);
    assert_eq!(parse_line(b"99999999999999999999"), None);
    assert_eq!(parse_line(b"-99999999999999999999"), None);
}

#[test]
fn non_numerals_are_rejected() {
    assert_eq!(parse_line(b"abc"), None);
    assert_eq!(parse_line(b""), None);
    assert_eq!(parse_line(b"   "), None);
    assert_eq!(parse_line(b"+"), None);
    assert_eq!(parse_line(b"-"), None);
    assert_eq!(parse_line(b"--5"), None);
    assert_eq!(parse_line(b"12a"), None);
    assert_eq!(parse_line(b"1 2"), None);
    assert_eq!(parse_line(b"4 2"), None);
}
