use tiered_discounts::decimal::{amount_to_string, parse_amount, parse_count, u64_to_string};

#[test]
fn renders_whole_numbers() {
    assert_eq!(u64_to_string(0), "0");
    assert_eq!(u64_to_string(7), "7");
    assert_eq!(u64_to_string(10), "10");
    assert_eq!(u64_to_string(205), "205");
    assert_eq!(u64_to_string(18446744073709551615), "18446744073709551615");
}

#[test]
fn renders_amounts_without_trailing_zeros() {
    assert_eq!(amount_to_string(0), "0");
    assert_eq!(amount_to_string(20000), "200");
    assert_eq!(amount_to_string(500), "5");
    assert_eq!(amount_to_string(750), "7.5");
    assert_eq!(amount_to_string(1225), "12.25");
    assert_eq!(amount_to_string(25), "0.25");
    assert_eq!(amount_to_string(1), "0.01");
    assert_eq!(amount_to_string(10), "0.1");
}

#[test]
fn parses_amounts_in_hundredths() {
    assert_eq!(parse_amount("200"), Some(20000));
    assert_eq!(parse_amount("7.5"), Some(750));
    assert_eq!(parse_amount("12.25"), Some(1225));
    assert_eq!(parse_amount("0.25"), Some(25));
    assert_eq!(parse_amount("0"), Some(0));
    assert_eq!(parse_amount("5.1200"), Some(512));
    assert_eq!(parse_amount("999999999999"), Some(99999999999900));
}

#[test]
fn rejects_amounts_outside_the_notation() {
    assert_eq!(parse_amount(""), None);
    assert_eq!(parse_amount("."), None);
    assert_eq!(parse_amount("5."), None);
    assert_eq!(parse_amount(".5"), None);
    assert_eq!(parse_amount("-5"), None);
    assert_eq!(parse_amount("1e3"), None);
    assert_eq!(parse_amount("5.125"), None);
    assert_eq!(parse_amount("1.2.3"), None);
    assert_eq!(parse_amount("1000000000000"), None);
    assert_eq!(parse_amount("12a"), None);
}

#[test]
fn parses_counts() {
    assert_eq!(parse_count("0"), Some(0));
    assert_eq!(parse_count("2"), Some(2));
    assert_eq!(parse_count("999999999"), Some(999999999));
    assert_eq!(parse_count(""), None);
    assert_eq!(parse_count("2.0"), None);
    assert_eq!(parse_count("-2"), None);
    assert_eq!(parse_count("1000000000"), None);
}

#[test]
fn rendering_round_trips_through_parsing() {
    for h in [0u64, 1, 10, 25, 500, 750, 1225, 10000, 20000, 99999999999900] {
        let text = amount_to_string(h);
        assert_eq!(parse_amount(&text), Some(h));
    }
}
