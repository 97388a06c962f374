use cpa005::amount::parse_dollar_amount_to_cents;

#[test]
fn dollar_amount_with_symbols_and_commas() {
    assert_eq!(
        parse_dollar_amount_to_cents(&"$1,234.56".to_string()),
        Some(123456)
    );
}

#[test]
fn dollar_amount_three_fraction_digits_fails() {
    assert_eq!(parse_dollar_amount_to_cents(&"12.345".to_string()), None);
}

#[test]
fn dollar_amount_letters_fail() {
    assert_eq!(parse_dollar_amount_to_cents(&"abc".to_string()), None);
}

#[test]
fn dollar_amount_plain_integer_is_dollars() {
    assert_eq!(parse_dollar_amount_to_cents(&"12".to_string()), Some(1200));
}

#[test]
fn dollar_amount_single_fraction_digit_is_tens_of_cents() {
    assert_eq!(parse_dollar_amount_to_cents(&"12.3".to_string()), Some(1230));
    assert_eq!(parse_dollar_amount_to_cents(&".5".to_string()), Some(50));
}

#[test]
fn dollar_amount_trailing_point_is_whole_dollars() {
    assert_eq!(parse_dollar_amount_to_cents(&"12.".to_string()), Some(1200));
}

#[test]
fn dollar_amount_empty_and_lone_point_fail() {
    assert_eq!(parse_dollar_amount_to_cents(&"".to_string()), None);
    assert_eq!(parse_dollar_amount_to_cents(&".".to_string()), None);
    assert_eq!(parse_dollar_amount_to_cents(&"$ ,".to_string()), None);
}

#[test]
fn dollar_amount_two_points_fail() {
    assert_eq!(parse_dollar_amount_to_cents(&"1..2".to_string()), None);
    assert_eq!(parse_dollar_amount_to_cents(&"1.2.3".to_string()), None);
}

#[test]
fn dollar_amount_spaces_are_discarded() {
    assert_eq!(
        parse_dollar_amount_to_cents(&" 1 000.25 ".to_string()),
        Some(100025)
    );
}

#[test]
fn dollar_amount_huge_value_fails() {
    assert_eq!(
        parse_dollar_amount_to_cents(&"999999999999999999999999".to_string()),
        None
    );
}
