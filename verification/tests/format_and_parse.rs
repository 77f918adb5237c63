use weather_lookup::numfmt::format_centi;
use weather_lookup::parse::parse_coordinate;

#[test]
fn format_positive_with_fraction() {
    assert_eq!(format_centi(2010), "20.10");
}

#[test]
fn format_negative_value() {
    assert_eq!(format_centi(-350), "-3.50");
}

#[test]
fn format_zero() {
    assert_eq!(format_centi(0), "0.00");
}

#[test]
fn format_small_negative_fraction() {
    assert_eq!(format_centi(-5), "-0.05");
}

#[test]
fn format_whole_number() {
    assert_eq!(format_centi(700), "7.00");
}

#[test]
fn parse_plain_integer() {
    assert_eq!(parse_coordinate("40"), Some(4000));
}

#[test]
fn parse_with_long_fraction_truncates() {
    assert_eq!(parse_coordinate("55.7558666"), Some(5575));
}

#[test]
fn parse_negative_with_one_fraction_digit() {
    assert_eq!(parse_coordinate("-3.5"), Some(-350));
}

#[test]
fn parse_leading_zeros() {
    assert_eq!(parse_coordinate("007"), Some(700));
}

#[test]
fn parse_rejects_empty() {
    assert_eq!(parse_coordinate(""), None);
}

#[test]
fn parse_rejects_bare_minus() {
    assert_eq!(parse_coordinate("-"), None);
}

#[test]
fn parse_rejects_trailing_point() {
    assert_eq!(parse_coordinate("5."), None);
}

#[test]
fn parse_rejects_garbage_in_fraction() {
    assert_eq!(parse_coordinate("12.3a"), None);
}

#[test]
fn parse_rejects_ten_integer_digits() {
    assert_eq!(parse_coordinate("1234567890"), None);
}

#[test]
fn parse_rejects_non_numeric() {
    assert_eq!(parse_coordinate("abc"), None);
}
