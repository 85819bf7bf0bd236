use booth_organizer::booth_client::BoothClient;
use booth_organizer::price::{is_free_price, parse_element_price, parse_price_from_string};

#[test]
fn price_text_with_yen_sign_and_separator() {
    assert_eq!(parse_price_from_string("¥ 1,200"), Some(1200));
    assert_eq!(parse_price_from_string("¥1,200"), Some(1200));
    assert_eq!(parse_price_from_string("¥ 800"), Some(800));
    assert_eq!(parse_price_from_string("1,234,567"), Some(1234567));
}

#[test]
fn zero_and_empty_price_text_mean_free() {
    assert_eq!(parse_price_from_string("¥0"), None);
    assert_eq!(parse_price_from_string(""), None);
    assert_eq!(parse_price_from_string("¥"), None);
    assert_eq!(parse_price_from_string(" ¥ 0 "), None);
    assert_eq!(parse_price_from_string("\t¥0\n"), None);
}

#[test]
fn price_text_that_is_no_number_gives_no_price() {
    assert_eq!(parse_price_from_string("free"), None);
    assert_eq!(parse_price_from_string("¥12.5"), None);
    assert_eq!(parse_price_from_string("¥99999999999999999999"), None);
    assert_eq!(parse_price_from_string("$ 10"), None);
}

#[test]
fn price_text_keeps_what_parse_accepts() {
    assert_eq!(parse_price_from_string("00"), Some(0));
    assert_eq!(parse_price_from_string("-5"), Some(-5));
    assert_eq!(parse_price_from_string("+5"), Some(5));
    assert_eq!(parse_price_from_string("\n ¥ 3,000 \n"), Some(3000));
    assert_eq!(parse_price_from_string("9223372036854775807"), Some(i64::MAX));
}

#[test]
fn client_reads_price_text_alike() {
    let client = BoothClient::new();
    assert_eq!(client.parse_price_from_string("¥ 1,200"), Some(1200));
    assert_eq!(client.parse_price_from_string("¥0"), None);
}

#[test]
fn element_price_is_read_as_it_stands() {
    assert_eq!(parse_element_price("¥800"), Some(800));
    assert_eq!(parse_element_price("¥ 1,200"), Some(1200));
    assert_eq!(parse_element_price("¥0"), Some(0));
    assert_eq!(parse_element_price(""), None);
    assert_eq!(parse_element_price("¥800\n"), None);
    assert_eq!(parse_element_price("¥800~"), None);
}

#[test]
fn free_follows_from_price() {
    assert!(is_free_price(None));
    assert!(is_free_price(Some(0)));
    assert!(!is_free_price(Some(1)));
    assert!(!is_free_price(Some(-1)));
}
