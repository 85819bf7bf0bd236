use booth_organizer::html_parser::{product_name_from_title, shop_name_from_title};

#[test]
fn title_gives_shop_and_product() {
    let title = "Widget Name - Shop Co - BOOTH";
    assert_eq!(shop_name_from_title(title), Some("Shop Co".to_string()));
    assert_eq!(product_name_from_title(title), Some("Widget Name".to_string()));
}

#[test]
fn shop_is_the_last_part_but_one() {
    assert_eq!(shop_name_from_title("A - B"), Some("A".to_string()));
    assert_eq!(shop_name_from_title("A - B - C - D"), Some("C".to_string()));
    assert_eq!(shop_name_from_title("A -  B  - C"), Some("B".to_string()));
    assert_eq!(shop_name_from_title("Only"), None);
    assert_eq!(shop_name_from_title(""), None);
    assert_eq!(shop_name_from_title(" - BOOTH"), None);
    assert_eq!(shop_name_from_title("A-B-C"), None);
}

#[test]
fn product_is_what_stands_before_the_shop() {
    assert_eq!(product_name_from_title("A - B - C - BOOTH"), Some("A - B".to_string()));
    assert_eq!(product_name_from_title("A - B"), Some("A".to_string()));
    assert_eq!(product_name_from_title("Only"), Some("Only".to_string()));
    assert_eq!(product_name_from_title("Only - BOOTH"), Some("Only".to_string()));
    assert_eq!(product_name_from_title("  Name - Shop - BOOTH \n"), Some("Name".to_string()));
    assert_eq!(product_name_from_title(""), None);
    assert_eq!(product_name_from_title("   "), None);
    assert_eq!(product_name_from_title(" - Shop - BOOTH"), None);
}

#[test]
fn product_with_separators_in_its_name() {
    let title = "2024年第5弾『YUKATA 祭囃子 - Matsuribayashi - 』💜 - Extension Shop - BOOTH";
    assert_eq!(
        product_name_from_title(title),
        Some("2024年第5弾『YUKATA 祭囃子 - Matsuribayashi - 』💜".to_string())
    );
    assert_eq!(shop_name_from_title(title), Some("Extension Shop".to_string()));
}
