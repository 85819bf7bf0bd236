use booth_organizer::booth_client::BoothClient;
use booth_organizer::errors::BoothClientError;
use booth_organizer::url_validator::{
    extract_product_id, has_product_path, is_product_page_url, is_product_url, is_valid_booth_url,
    validate_booth_url, UrlParts,
};

fn parts(url: &str) -> UrlParts {
    UrlParts::parse(url).unwrap()
}

#[test]
fn test_url_validation() {
    let client = BoothClient::new();

    // Valid URLs
    assert!(client.is_valid_booth_url(&parts("https://booth.pm/items/123")));
    assert!(client.is_valid_booth_url(&parts("https://example.booth.pm/items/123")));

    // Invalid URLs
    assert!(!client.is_valid_booth_url(&parts("https://example.com/items/123")));
    assert!(!client.is_valid_booth_url(&parts("https://not-booth.com/items/123")));
}

#[test]
fn test_product_id_extraction() {
    let client = BoothClient::new();

    // Test various URL formats
    assert_eq!(
        client.extract_product_id(&parts("https://example.booth.pm/items/5840141")).unwrap(),
        5840141
    );
    assert_eq!(
        client.extract_product_id(&parts("https://booth.pm/ja/items/123456")).unwrap(),
        123456
    );

    // Invalid URLs should fail
    assert!(client.extract_product_id(&parts("https://booth.pm/shop/example")).is_err());
}

#[test]
fn parse_reads_host_and_path() {
    let url = parts("https://Shop.Booth.pm/ja/items/42?ref=top#tags");
    assert_eq!(url.host.as_deref(), Some("shop.booth.pm"));
    assert_eq!(url.path, "/ja/items/42");
    assert!(UrlParts::parse("not-a-url").is_none());
    assert!(UrlParts::parse("").is_none());
}

#[test]
fn host_rule_works_on_given_parts() {
    let main = UrlParts { host: Some("booth.pm".to_string()), path: "/".to_string() };
    let shop = UrlParts { host: Some("a.booth.pm".to_string()), path: "/".to_string() };
    let near = UrlParts { host: Some("notbooth.pm".to_string()), path: "/".to_string() };
    let longer = UrlParts { host: Some("booth.pm.example.com".to_string()), path: "/".to_string() };
    let none = UrlParts { host: None, path: "/items/1".to_string() };
    assert!(is_valid_booth_url(&main));
    assert!(is_valid_booth_url(&shop));
    assert!(!is_valid_booth_url(&near));
    assert!(!is_valid_booth_url(&longer));
    assert!(!is_valid_booth_url(&none));
}

#[test]
fn product_path_needs_items_then_digits() {
    assert!(has_product_path("/items/123"));
    assert!(has_product_path("/ja/items/12345"));
    assert!(has_product_path("/en/shop/items/7/reviews"));
    assert!(has_product_path("/items/abc/items/123"));
    assert!(!has_product_path("/items"));
    assert!(!has_product_path("/items/"));
    assert!(!has_product_path("/items/abc"));
    assert!(!has_product_path("/items/12a"));
    assert!(!has_product_path("/items//123"));
    assert!(!has_product_path("/item/123"));
    assert!(!has_product_path("/xitems/123"));
    assert!(!has_product_path("/"));
    assert!(!has_product_path(""));
    assert!(!has_product_path("/items/+123"));
    assert!(!has_product_path("/items/１２３"));
}

#[test]
fn product_url_needs_host_and_path() {
    assert!(is_product_url("https://booth.pm/items/123"));
    assert!(is_product_url("https://shop.booth.pm/ja/items/5840141"));
    assert!(is_product_url("https://shop.booth.pm/items/5840141?utm=1"));
    assert!(!is_product_url("https://example.com/items/123"));
    assert!(!is_product_url("https://booth.pm/no-items-path"));
    assert!(!is_product_url("https://booth.pm/items/"));
    assert!(!is_product_url("not-a-url"));
    assert!(!is_product_url("booth.pm/items/123"));
    assert!(is_product_page_url(&parts("https://x.booth.pm/items/1")));
    assert!(!is_product_page_url(&parts("https://x.booth.pm/cart")));
}

#[test]
fn validate_booth_url_never_fails() {
    assert_eq!(validate_booth_url("https://booth.pm/items/123".to_string()), Ok(true));
    assert_eq!(validate_booth_url("https://booth.pm/en/items/9".to_string()), Ok(true));
    assert_eq!(validate_booth_url("https://booth.pm/items".to_string()), Ok(false));
    assert_eq!(validate_booth_url("https://evil.example/items/123".to_string()), Ok(false));
    assert_eq!(validate_booth_url("::::".to_string()), Ok(false));
}

#[test]
fn product_id_is_the_first_that_parses() {
    let id = |path: &str| {
        extract_product_id(&UrlParts { host: Some("booth.pm".to_string()), path: path.to_string() })
    };
    assert_eq!(id("/items/5840141").unwrap(), 5840141);
    assert_eq!(id("/items/abc/items/77").unwrap(), 77);
    assert_eq!(id("/items/1/items/2").unwrap(), 1);
    assert_eq!(id("/items/0007").unwrap(), 7);
    assert_eq!(id("/items/-5").unwrap(), -5);
    assert_eq!(id("/items/+5").unwrap(), 5);
    assert_eq!(id("/items/9223372036854775807").unwrap(), i64::MAX);
    assert_eq!(id("/items/-9223372036854775808").unwrap(), i64::MIN);
    assert!(id("/items/9223372036854775808").is_err());
    assert!(id("/items/-9223372036854775809").is_err());
    assert!(id("/items/").is_err());
    assert!(id("/items").is_err());
    assert!(id("/items//5").is_err());
    assert!(id("/shop/example").is_err());
    assert!(id("").is_err());
}

#[test]
fn missing_product_id_is_reported_as_such() {
    match extract_product_id(&parts("https://booth.pm/shop/example")) {
        Err(BoothClientError::ElementNotFound { element }) => assert_eq!(element, "product ID"),
        other => panic!("unexpected: {:?}", other),
    }
}
