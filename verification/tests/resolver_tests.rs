use booth_organizer::errors::BoothClientError;
use booth_organizer::json_api::{
    BoothJsonImage, BoothJsonResponse, BoothJsonShop, BoothJsonTag,
};
use booth_organizer::product::BoothProductInfo;
use booth_organizer::resolver::{
    begin_html_fallback, product_from_html, ProductInfoResolver, ResolverAction, ResolverEvent,
    ResolverState,
};

const PAGE: &str = r#"
    <html>
        <head><title>Widget Name - Shop Co - BOOTH</title></head>
        <body>
            <div class="shop-name"><a>Shop Co</a></div>
            <h2 class="item-name">Widget Name</h2>
            <span class="variation-price">¥ 1,200</span>
            <div id="js-item-tag-list">
                <a>3D</a><a>Cart</a><a>Avatar</a>
                <a>a text that is far too long to be a tag, for it has more than fifty characters</a>
            </div>
        </body>
    </html>
"#;

const FREE_PAGE: &str = r#"
    <html>
        <head><title>Free Thing - Shop Co - BOOTH</title></head>
        <body><span class="price">¥0</span></body>
    </html>
"#;

fn finished(resolver: &ProductInfoResolver) -> Result<BoothProductInfo, BoothClientError> {
    match resolver.action() {
        ResolverAction::Finish(result) => result,
        other => panic!("not finished: {:?}", other),
    }
}

fn answer() -> BoothJsonResponse {
    BoothJsonResponse {
        id: 3681219,
        name: "Structured Name".to_string(),
        price: "¥ 1,500".to_string(),
        description: Some("about".to_string()),
        tags: vec![
            BoothJsonTag { name: "VRChat".to_string() },
            BoothJsonTag { name: "Share".to_string() },
            BoothJsonTag { name: "VRChat".to_string() },
        ],
        images: vec![
            BoothJsonImage {
                original: Some("https://img.example/o1.png".to_string()),
                resized: Some("https://img.example/r1.png".to_string()),
            },
            BoothJsonImage { original: Some("https://img.example/o2.png".to_string()), resized: None },
        ],
        shop: BoothJsonShop { name: "Structured Shop".to_string() },
    }
}

#[test]
fn structured_answer_ends_the_resolution() {
    let mut resolver = ProductInfoResolver::new("https://booth.pm/ja/items/3681219");
    assert!(matches!(resolver.action(), ResolverAction::Begin));
    resolver.step(ResolverEvent::Begin);
    match resolver.action() {
        ResolverAction::FetchStructured(endpoint) => {
            assert_eq!(endpoint, "https://booth.pm/ja/items/3681219.json")
        }
        other => panic!("unexpected: {:?}", other),
    }
    assert!(!resolver.is_finished());
    resolver.step(ResolverEvent::StructuredAnswer(answer()));
    assert!(resolver.is_finished());
    let info = finished(&resolver).unwrap();
    assert_eq!(info.product_id, Some(3681219));
    assert_eq!(info.shop_name, "Structured Shop");
    assert_eq!(info.product_name, "Structured Name");
    assert_eq!(info.price, Some(1500));
    assert!(!info.is_free);
    assert_eq!(info.description.as_deref(), Some("about"));
    assert_eq!(info.thumbnail_url.as_deref(), Some("https://img.example/r1.png"));
    assert_eq!(info.tags, vec!["VRChat", "Share", "VRChat"]);
    assert_eq!(info.booth_url, "https://booth.pm/ja/items/3681219");
}

#[test]
fn failed_endpoint_falls_back_to_the_page() {
    let url = "https://shop.booth.pm/items/5840141";
    let mut resolver = ProductInfoResolver::new(url);
    resolver.step(ResolverEvent::Begin);
    // the endpoint answered 404
    resolver.step(ResolverEvent::StructuredFailure);
    match resolver.action() {
        ResolverAction::FetchPage(address) => assert_eq!(address, url),
        other => panic!("unexpected: {:?}", other),
    }
    assert!(matches!(resolver.state, ResolverState::TryHtmlFallback { product_id: 5840141 }));
    resolver.step(ResolverEvent::Page(PAGE.to_string()));
    let info = finished(&resolver).unwrap();
    assert_eq!(info.product_id, Some(5840141));
    assert_eq!(info.shop_name, "Shop Co");
    assert_eq!(info.product_name, "Widget Name");
    assert_eq!(info.price, Some(1200));
    assert!(!info.is_free);
    assert_eq!(info.tags, vec!["3D", "Avatar"]);
    assert_eq!(info.booth_url, url);
}

#[test]
fn a_page_without_price_or_with_price_zero_is_free() {
    let url = "https://shop.booth.pm/items/1";
    let mut resolver = ProductInfoResolver::new(url);
    resolver.step(ResolverEvent::Begin);
    resolver.step(ResolverEvent::StructuredFailure);
    resolver.step(ResolverEvent::Page(FREE_PAGE.to_string()));
    let info = finished(&resolver).unwrap();
    assert_eq!(info.price, Some(0));
    assert!(info.is_free);
    assert_eq!(info.shop_name, "Shop Co");
    assert_eq!(info.product_name, "Free Thing");

    let no_price = "<title>Gift - Giver - BOOTH</title>";
    let info = product_from_html(no_price, url, 1).unwrap();
    assert_eq!(info.price, None);
    assert!(info.is_free);
    assert_eq!(info.description, None);
    assert_eq!(info.thumbnail_url, None);
    assert!(info.tags.is_empty());
}

#[test]
fn test_invalid_url_handling() {
    // Test with completely invalid URL
    let mut resolver = ProductInfoResolver::new("not-a-url");
    resolver.step(ResolverEvent::Begin);
    assert!(finished(&resolver).is_err());

    // Test with non-BOOTH URL
    let mut resolver = ProductInfoResolver::new("https://example.com/items/123");
    resolver.step(ResolverEvent::Begin);
    resolver.step(ResolverEvent::StructuredFailure);
    assert!(finished(&resolver).is_err());

    // Test with malformed BOOTH URL
    let mut resolver = ProductInfoResolver::new("https://booth.pm/no-items-path");
    resolver.step(ResolverEvent::Begin);
    resolver.step(ResolverEvent::StructuredFailure);
    assert!(finished(&resolver).is_err());
}

#[test]
fn invalid_addresses_are_reported_with_the_address() {
    let mut resolver = ProductInfoResolver::new("not-a-url");
    resolver.step(ResolverEvent::Begin);
    match finished(&resolver) {
        Err(BoothClientError::InvalidUrl { url }) => assert_eq!(url, "not-a-url"),
        other => panic!("unexpected: {:?}", other),
    }
    match begin_html_fallback("https://example.com/items/123") {
        Err(BoothClientError::InvalidUrl { url }) => assert_eq!(url, "https://example.com/items/123"),
        other => panic!("unexpected: {:?}", other),
    }
    assert!(matches!(
        begin_html_fallback("https://booth.pm/items/99999999999999999999"),
        Err(BoothClientError::ElementNotFound { .. })
    ));
    assert_eq!(begin_html_fallback("https://x.booth.pm/en/items/42").unwrap(), 42);
}

#[test]
fn a_page_that_cannot_be_fetched_fails_the_resolution() {
    let mut resolver = ProductInfoResolver::new("https://booth.pm/items/5");
    resolver.step(ResolverEvent::Begin);
    resolver.step(ResolverEvent::StructuredFailure);
    resolver.step(ResolverEvent::PageFailure(BoothClientError::HttpError { status: 503 }));
    assert!(matches!(finished(&resolver), Err(BoothClientError::HttpError { status: 503 })));
}

#[test]
fn a_page_without_names_fails_the_resolution() {
    let mut resolver = ProductInfoResolver::new("https://booth.pm/items/5");
    resolver.step(ResolverEvent::Begin);
    resolver.step(ResolverEvent::StructuredFailure);
    resolver.step(ResolverEvent::Page("<p>maintenance</p>".to_string()));
    match finished(&resolver) {
        Err(BoothClientError::ElementNotFound { element }) => assert_eq!(element, "shop name"),
        other => panic!("unexpected: {:?}", other),
    }
    let only_shop = r#"<div class="shop-name">Shop</div>"#;
    match product_from_html(only_shop, "https://booth.pm/items/5", 5) {
        Err(BoothClientError::ElementNotFound { element }) => assert_eq!(element, "product name"),
        other => panic!("unexpected: {:?}", other),
    }
}

#[test]
fn an_answer_without_names_leads_to_the_page() {
    let mut nameless = answer();
    nameless.shop.name = String::new();
    let mut resolver = ProductInfoResolver::new("https://booth.pm/items/5");
    resolver.step(ResolverEvent::Begin);
    resolver.step(ResolverEvent::StructuredAnswer(nameless));
    assert!(matches!(resolver.action(), ResolverAction::FetchPage(_)));
}

#[test]
fn events_out_of_turn_change_nothing() {
    let mut resolver = ProductInfoResolver::new("https://booth.pm/items/5");
    resolver.step(ResolverEvent::Page(PAGE.to_string()));
    assert!(matches!(resolver.state, ResolverState::Start));
    resolver.step(ResolverEvent::Begin);
    resolver.step(ResolverEvent::Page(PAGE.to_string()));
    resolver.step(ResolverEvent::Begin);
    assert!(matches!(resolver.state, ResolverState::TryStructured { .. }));
    resolver.step(ResolverEvent::StructuredAnswer(answer()));
    resolver.step(ResolverEvent::StructuredFailure);
    resolver.step(ResolverEvent::Page("<p></p>".to_string()));
    assert_eq!(finished(&resolver).unwrap().product_name, "Structured Name");
}
