use booth_organizer::errors::BoothClientError;
use booth_organizer::json_api::{
    json_endpoint, product_from_json, select_thumbnail, BoothJsonImage, BoothJsonResponse,
    BoothJsonShop, BoothJsonTag,
};

fn listing(price: &str) -> BoothJsonResponse {
    BoothJsonResponse {
        id: 42,
        name: "Name".to_string(),
        price: price.to_string(),
        description: None,
        tags: vec![BoothJsonTag { name: "b".to_string() }, BoothJsonTag { name: "a".to_string() }],
        images: Vec::new(),
        shop: BoothJsonShop { name: "Shop".to_string() },
    }
}

#[test]
fn endpoint_is_the_address_with_json_added() {
    assert_eq!(
        json_endpoint("https://booth.pm/ja/items/3681219").unwrap(),
        "https://booth.pm/ja/items/3681219.json"
    );
    assert_eq!(
        json_endpoint("https://booth.pm/items/1/").unwrap(),
        "https://booth.pm/items/1.json"
    );
    assert_eq!(
        json_endpoint("https://booth.pm/items/1///").unwrap(),
        "https://booth.pm/items/1.json"
    );
    assert_eq!(
        json_endpoint("https://booth.pm/items/1.json").unwrap(),
        "https://booth.pm/items/1.json"
    );
    assert_eq!(
        json_endpoint("https://example.com/anything").unwrap(),
        "https://example.com/anything.json"
    );
}

#[test]
fn endpoint_of_no_url_is_refused() {
    match json_endpoint("items/1") {
        Err(BoothClientError::InvalidUrl { url }) => assert_eq!(url, "items/1"),
        other => panic!("unexpected: {:?}", other),
    }
    assert!(json_endpoint("").is_err());
}

#[test]
fn listing_is_mapped_field_by_field() {
    let info = product_from_json(&listing("¥ 1,200"), "https://booth.pm/items/42").unwrap();
    assert_eq!(info.product_id, Some(42));
    assert_eq!(info.shop_name, "Shop");
    assert_eq!(info.product_name, "Name");
    assert_eq!(info.price, Some(1200));
    assert!(!info.is_free);
    assert_eq!(info.description, None);
    assert_eq!(info.thumbnail_url, None);
    assert_eq!(info.tags, vec!["b", "a"]);
    assert_eq!(info.booth_url, "https://booth.pm/items/42");
}

#[test]
fn price_that_does_not_parse_leaves_the_listing_free() {
    for price in ["", "¥0", "¥ 0", "ask", "¥1.5"] {
        let info = product_from_json(&listing(price), "u").unwrap();
        assert_eq!(info.price, None, "price text {:?}", price);
        assert!(info.is_free);
    }
}

#[test]
fn nameless_listing_is_refused() {
    let mut no_shop = listing("¥1");
    no_shop.shop.name.clear();
    assert!(matches!(product_from_json(&no_shop, "u"), Err(BoothClientError::ParseError)));
    let mut no_name = listing("¥1");
    no_name.name.clear();
    assert!(matches!(product_from_json(&no_name, "u"), Err(BoothClientError::ParseError)));
}

#[test]
fn thumbnail_is_the_first_image_resized_if_possible() {
    let image = |original: Option<&str>, resized: Option<&str>| BoothJsonImage {
        original: original.map(|s| s.to_string()),
        resized: resized.map(|s| s.to_string()),
    };
    assert_eq!(select_thumbnail(&Vec::new()), None);
    assert_eq!(
        select_thumbnail(&vec![image(Some("o"), Some("r")), image(Some("o2"), Some("r2"))]),
        Some("r".to_string())
    );
    assert_eq!(select_thumbnail(&vec![image(Some("o"), None)]), Some("o".to_string()));
    assert_eq!(select_thumbnail(&vec![image(None, None), image(Some("o2"), Some("r2"))]), None);
}

#[test]
fn shown_part_of_a_record() {
    let info = product_from_json(&listing("¥ 300"), "https://booth.pm/items/42").unwrap();
    let shown = info.to_api_type();
    assert_eq!(shown.product_id, Some(42));
    assert_eq!(shown.shop_name, "Shop");
    assert_eq!(shown.product_name, "Name");
    assert_eq!(shown.price, Some(300));
    assert_eq!(shown.thumbnail_url, None);
    assert_eq!(shown.tags, vec!["b", "a"]);
    let copy = info.copy();
    assert_eq!(copy.booth_url, info.booth_url);
    assert_eq!(copy.tags, info.tags);
    assert_eq!(copy.is_free, info.is_free);
}
