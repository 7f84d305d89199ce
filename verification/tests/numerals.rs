use book_catalog::parse_id;

#[test]
fn plain_numbers_parse() {
    assert_eq!(parse_id("0"), Some(0));
    assert_eq!(parse_id("1"), Some(1));
    assert_eq!(parse_id("42"), Some(42));
    assert_eq!(parse_id("3000"), Some(3000));
}

#[test]
fn leading_zeros_are_digits_too() {
    assert_eq!(parse_id("007"), Some(7));
    assert_eq!(parse_id("000"), Some(0));
}

#[test]
fn the_largest_id_parses() {
    assert_eq!(parse_id("18446744073709551615"), Some(u64::MAX));
}

#[test]
fn one_past_the_largest_id_is_rejected() {
    assert_eq!(parse_id("18446744073709551616"), None);
    assert_eq!(parse_id("99999999999999999999999"), None);
}

#[test]
fn empty_and_non_digit_segments_are_rejected() {
    assert_eq!(parse_id(""), None);
    assert_eq!(parse_id("abc"), None);
    assert_eq!(parse_id("12a"), None);
    assert_eq!(parse_id("a12"), None);
    assert_eq!(parse_id("-1"), None);
    assert_eq!(parse_id("+1"), None);
    assert_eq!(parse_id("1 "), None);
    assert_eq!(parse_id("١٢"), None);
}
