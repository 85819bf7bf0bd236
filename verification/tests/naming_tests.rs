use booth_organizer::booth_info::{
    archive_folder_names, booth_info_from_groups, extraction_message, resolution_failure,
    thumbnail_extension, thumbnail_file_name, vet_product_info,
};
use booth_organizer::encoding::{choose_filename, detect_and_convert_filename};
use booth_organizer::errors::{BoothClientError, FailureKind};
use booth_organizer::extract_booth_info_fallback;
use booth_organizer::product::BoothProductInfo;

fn pair(a: &str, b: &str) -> (String, String) {
    (a.to_string(), b.to_string())
}

#[test]
fn address_names_shop_and_product() {
    assert_eq!(
        extract_booth_info_fallback("https://myshop.booth.pm/items/12345").unwrap(),
        pair("myshop", "product_12345")
    );
    assert_eq!(
        extract_booth_info_fallback("see https://a.booth.pm/items/7?ref=x for more").unwrap(),
        pair("a", "product_7")
    );
    assert_eq!(
        extract_booth_info_fallback("https://x/y.booth.pm/items/1").unwrap(),
        pair("x/y", "product_1")
    );
    assert_eq!(
        extract_booth_info_fallback("https://shop.booth.pm/items/123abc").unwrap(),
        pair("shop", "product_123")
    );
}

#[test]
fn address_of_another_shape_is_refused() {
    for url in [
        "https://booth.pm/items/1",
        "https://shop.booth.pm/ja/items/1",
        "http://shop.booth.pm/items/1",
        "https://shop.booth.pm/items/",
        "https://shop.booth.pm/items/x",
        "",
    ] {
        match extract_booth_info_fallback(url) {
            Err(BoothClientError::InvalidUrl { url: said }) => assert_eq!(said, url),
            other => panic!("{:?} gave {:?}", url, other),
        }
    }
}

#[test]
fn groups_decide_the_names() {
    let groups = |items: &[Option<&str>]| -> Vec<Option<String>> {
        items.iter().map(|g| g.map(|s| s.to_string())).collect()
    };
    assert_eq!(
        booth_info_from_groups(&groups(&[Some("whole"), Some("shop"), Some("42")])).unwrap(),
        pair("shop", "product_42")
    );
    assert_eq!(
        booth_info_from_groups(&groups(&[Some("whole"), None, Some("42")])).unwrap(),
        pair("unknown_shop", "product_42")
    );
    assert!(matches!(
        booth_info_from_groups(&groups(&[Some("whole"), Some("shop"), None])),
        Err(BoothClientError::ElementNotFound { .. })
    ));
    assert!(booth_info_from_groups(&groups(&[Some("whole"), Some("shop")])).is_err());
    assert!(booth_info_from_groups(&Vec::new()).is_err());
}

#[test]
fn archive_folders_follow_what_is_known() {
    assert_eq!(
        archive_folder_names(
            Some(pair("Shop: A", "Item/1")),
            Some("https://s.booth.pm/items/1"),
            "archive"
        ),
        pair("Shop_ A", "Item_1")
    );
    assert_eq!(
        archive_folder_names(None, Some("https://s.booth.pm/items/1"), "archive"),
        pair("s", "product_1")
    );
    assert_eq!(
        archive_folder_names(None, Some("https://booth.pm/items/1"), "my archive."),
        pair("Unknown_Shop", "my archive")
    );
    assert_eq!(archive_folder_names(None, None, "archive"), pair("Unknown_Shop", "archive"));
    assert_eq!(
        archive_folder_names(Some(pair("ignored", "ignored")), None, ""),
        pair("Unknown_Shop", "unnamed")
    );
}

#[test]
fn thumbnail_files_are_named_after_shop_and_product() {
    assert_eq!(thumbnail_extension("https://img.example/a.png"), "png");
    assert_eq!(thumbnail_extension("https://img.example/a.gif?x=1"), "gif");
    assert_eq!(thumbnail_extension("https://img.example/a.webp"), "webp");
    assert_eq!(thumbnail_extension("https://img.example/a.jpg"), "jpg");
    assert_eq!(thumbnail_extension("https://img.example/a.jpeg"), "jpg");
    assert_eq!(thumbnail_extension("https://img.example/a.gif.png"), "png");
    assert_eq!(thumbnail_extension(""), "jpg");
    assert_eq!(
        thumbnail_file_name("Shop/A", "Item: 1", "https://img.example/a.webp"),
        "Shop_A_Item_ 1.webp"
    );
    assert_eq!(thumbnail_file_name("", "", "x"), "unnamed_unnamed.jpg");
}

#[test]
fn messages_carry_their_numbers() {
    assert_eq!(extraction_message(0), "0個のファイルを展開しました");
    assert_eq!(extraction_message(7), "7個のファイルを展開しました");
    assert_eq!(extraction_message(1203), "1203個のファイルを展開しました");
}

fn record(shop: &str, product: &str) -> BoothProductInfo {
    BoothProductInfo {
        product_id: None,
        shop_name: shop.to_string(),
        product_name: product.to_string(),
        price: None,
        description: None,
        thumbnail_url: None,
        is_free: true,
        tags: Vec::new(),
        booth_url: String::new(),
    }
}

#[test]
fn records_are_vetted_before_they_are_shown() {
    assert_eq!(vet_product_info(&record("Shop", "Item")), Ok(()));
    let incomplete = "商品情報が不完全です。正しい商品ページのURLを確認してください。";
    let not_found = "商品ページが見つかりません。URLを確認してください。";
    assert_eq!(vet_product_info(&record(" ", "Item")), Err(incomplete.to_string()));
    assert_eq!(vet_product_info(&record("Shop", "\n")), Err(incomplete.to_string()));
    for name in ["Page Not Found", "404", "Error 404 page", "ページが見つかりません", "エラーです"] {
        assert_eq!(vet_product_info(&record("Shop", name)), Err(not_found.to_string()));
    }
    assert_eq!(vet_product_info(&record("Shop", "NOT FOUNDATION")), Err(not_found.to_string()));
    assert_eq!(vet_product_info(&record("Shop", "Item 40 4")), Ok(()));
}

#[test]
fn errors_speak_and_sort_themselves() {
    let cases: Vec<(BoothClientError, &str, FailureKind)> = vec![
        (
            BoothClientError::InvalidUrl { url: "x".to_string() },
            "Invalid BOOTH URL: x",
            FailureKind::Input,
        ),
        (
            BoothClientError::NetworkError { message: "reset".to_string() },
            "Network request failed: reset",
            FailureKind::Transient,
        ),
        (
            BoothClientError::ResponseRead { message: "cut".to_string() },
            "Response read error: cut",
            FailureKind::Transient,
        ),
        (BoothClientError::RateLimited, "Rate limited (429), retrying...", FailureKind::Transient),
        (BoothClientError::MaxRetriesExceeded, "Max retries exceeded", FailureKind::Transient),
        (BoothClientError::ParseError, "Failed to parse HTML content", FailureKind::Shape),
        (
            BoothClientError::ElementNotFound { element: "shop name".to_string() },
            "Required element not found: shop name",
            FailureKind::Shape,
        ),
        (BoothClientError::HttpError { status: 503 }, "HTTP error: 503", FailureKind::Definitive),
        (BoothClientError::HttpError { status: 0 }, "HTTP error: 0", FailureKind::Definitive),
        (
            BoothClientError::HttpError { status: 65535 },
            "HTTP error: 65535",
            FailureKind::Definitive,
        ),
    ];
    for (error, message, kind) in cases {
        assert_eq!(error.message(), message);
        assert_eq!(error.kind(), kind);
        assert_eq!(error.is_retryable(), kind == FailureKind::Transient);
        assert_eq!(error.copy().message(), message);
    }
    assert_eq!(
        resolution_failure(&BoothClientError::HttpError { status: 404 }),
        "BOOTH商品情報の取得に失敗しました: HTTP error: 404 (購入ページやカートページではなく、商品ページのURLを入力してください)"
    );
}

#[test]
fn file_names_are_read_as_utf8_first() {
    assert_eq!(detect_and_convert_filename("readme.txt".as_bytes()), "readme.txt");
    assert_eq!(detect_and_convert_filename("テスト/モデル.fbx".as_bytes()), "テスト/モデル.fbx");
    assert_eq!(detect_and_convert_filename(b""), "");
}

#[test]
fn file_names_in_shift_jis_are_recognised() {
    // テスト.txt
    let bytes = [0x83, 0x65, 0x83, 0x58, 0x83, 0x67, b'.', b't', b'x', b't'];
    assert_eq!(detect_and_convert_filename(&bytes), "テスト.txt");
    // 日本語
    let bytes = [0x93, 0xfa, 0x96, 0x7b, 0x8c, 0xea];
    assert_eq!(detect_and_convert_filename(&bytes), "日本語");
}

#[test]
fn file_names_in_no_known_encoding_are_read_leniently() {
    let bytes = [b'a', 0xff, 0xfe, 0xfd, b'b'];
    assert_eq!(detect_and_convert_filename(&bytes), "a\u{fffd}\u{fffd}\u{fffd}b");
    let long = vec![0x83u8; 70_000];
    assert_eq!(detect_and_convert_filename(&long).chars().count(), 70_000);
}

#[test]
fn the_first_clean_reading_is_the_name() {
    let reading = |text: &str, faulty: bool| Some((text.to_string(), faulty));
    let lossy = || "lossy".to_string();
    assert_eq!(
        choose_filename(Some("utf8".to_string()), reading("sj", false), reading("win", false), lossy()),
        "utf8"
    );
    assert_eq!(choose_filename(None, reading("sj", false), reading("win", false), lossy()), "sj");
    assert_eq!(choose_filename(None, reading("sj", true), reading("win", false), lossy()), "win");
    assert_eq!(choose_filename(None, None, reading("win", false), lossy()), "win");
    assert_eq!(choose_filename(None, reading("sj", true), reading("win", true), lossy()), "lossy");
    assert_eq!(choose_filename(None, reading("sj", true), None, lossy()), "lossy");
    assert_eq!(choose_filename(None, None, None, lossy()), "lossy");
}
