use booth_organizer::app_error::{to_tauri_result, AppError, ErrorCategory};
use booth_organizer::catalog::{
    batch_statistics, file_has_any_tag, file_matches_query, files_with_ids,
    find_duplicate_groups, search_files, search_files_by_tags, sync_report,
};
use booth_organizer::database::{FileRecord, FileWithTags, Tag};
use booth_organizer::errors::BoothClientError;
use booth_organizer::pagination::{
    direction_keyword, is_allowed_column, is_default_tag_order, parse_direction, placeholders,
    plan_page, SortDirection, DEFAULT_FILE_SORT, DEFAULT_TAG_SORT, FILE_SORT_COLUMNS,
    TAG_SORT_COLUMNS,
};
use booth_organizer::results::{greet, signed_text};
use booth_organizer::tag_validator::new_tag;
use booth_organizer::{FileSelectResult, ProcessResult};

fn file(id: Option<i64>, name: &str, size: i64) -> FileRecord {
    FileRecord {
        id,
        file_path: format!("/archive/{}", name),
        file_name: name.to_string(),
        file_size: size,
        modified_time: 0,
        created_at: String::new(),
        updated_at: String::new(),
        product_id: None,
        product_name: None,
        author_name: None,
        price: None,
        description: None,
        thumbnail_url: None,
        product_url: None,
    }
}

fn tag(name: &str) -> Tag {
    Tag {
        id: None,
        name: name.to_string(),
        usage_count: 0,
        created_at: String::new(),
        updated_at: String::new(),
    }
}

fn tagged(id: i64, name: &str, size: i64, tags: &[&str]) -> FileWithTags {
    FileWithTags { file: file(Some(id), name, size), tags: tags.iter().map(|t| tag(t)).collect() }
}

fn ids(files: &[FileWithTags]) -> Vec<i64> {
    files.iter().map(|f| f.file.id.unwrap()).collect()
}

#[test]
fn search_looks_at_names_paths_products_and_authors() {
    let mut with_product = file(Some(1), "a.zip", 1);
    with_product.product_name = Some("Fancy Avatar".to_string());
    let mut with_author = file(Some(2), "b.zip", 1);
    with_author.author_name = Some("Studio ÉCLAT".to_string());
    let plain = file(Some(3), "Avatar_Pack.ZIP", 1);
    assert!(file_matches_query(&with_product, "avatar"));
    assert!(file_matches_query(&with_product, "FANCY"));
    assert!(file_matches_query(&with_author, "éclat"));
    assert!(file_matches_query(&plain, "avatar_pack.zip"));
    assert!(file_matches_query(&plain, "/ARCHIVE/"));
    assert!(file_matches_query(&plain, ""));
    assert!(!file_matches_query(&plain, "fancy"));
    assert!(!file_matches_query(&with_author, "studio  éclat"));
}

#[test]
fn search_keeps_the_order_of_the_catalog() {
    let files = vec![
        tagged(1, "Avatar.zip", 1, &[]),
        tagged(2, "texture.zip", 1, &[]),
        tagged(3, "my-AVATAR-2.zip", 1, &[]),
    ];
    assert_eq!(ids(&search_files(files.clone(), "avatar")), vec![1, 3]);
    assert_eq!(ids(&search_files(files.clone(), "zip")), vec![1, 2, 3]);
    assert!(search_files(files, "nothing").is_empty());
    assert!(search_files(Vec::new(), "x").is_empty());
}

#[test]
fn tags_select_files_that_carry_one_of_them() {
    let files = vec![
        tagged(1, "a", 1, &["VRChat", "Unity"]),
        tagged(2, "b", 1, &[]),
        tagged(3, "c", 1, &["Blender"]),
        tagged(4, "d", 1, &["unity"]),
    ];
    let wanted = |names: &[&str]| names.iter().map(|n| n.to_string()).collect::<Vec<_>>();
    assert!(file_has_any_tag(&files[0], &wanted(&["Unity"])));
    assert!(!file_has_any_tag(&files[3], &wanted(&["Unity"])));
    assert_eq!(ids(&search_files_by_tags(files.clone(), &wanted(&["Unity", "Blender"]))), vec![1, 3]);
    assert!(search_files_by_tags(files.clone(), &wanted(&[])).is_empty());
    assert_eq!(ids(&files_with_ids(files.clone(), &vec![4, 2, 9])), vec![2, 4]);
    assert!(files_with_ids(files, &Vec::new()).is_empty());
}

#[test]
fn statistics_count_the_listed_files() {
    let mut a = file(Some(1), "a", 1);
    a.product_name = Some("p".to_string());
    let mut b = file(Some(2), "b", 1);
    b.author_name = Some("s".to_string());
    let c = file(Some(3), "c", 1);
    let mut d = file(None, "d", 1);
    d.product_name = Some("p".to_string());
    let files = vec![a, b, c, d];
    let all = batch_statistics(&files, &vec![1, 2, 3, 4]);
    assert_eq!((all.processed, all.updated, all.errors), (3, 2, 0));
    let some = batch_statistics(&files, &vec![3, 2]);
    assert_eq!((some.processed, some.updated, some.errors), (2, 1, 0));
    let none = batch_statistics(&files, &Vec::new());
    assert_eq!((none.processed, none.updated, none.errors), (0, 0, 0));
}

#[test]
fn duplicates_are_files_of_the_same_name_and_size() {
    let files = vec![
        tagged(1, "a.zip", 10, &[]),
        tagged(2, "b.zip", 10, &[]),
        tagged(3, "a.zip", 10, &[]),
        tagged(4, "a.zip", 11, &[]),
        tagged(5, "b.zip", 10, &[]),
        tagged(6, "a.zip", 10, &[]),
        tagged(7, "c.zip", 10, &[]),
    ];
    assert_eq!(find_duplicate_groups(&files), vec![vec![0, 2, 5], vec![1, 4]]);
    assert!(find_duplicate_groups(&Vec::new()).is_empty());
    assert!(find_duplicate_groups(&files[6..].to_vec()).is_empty());
}

#[test]
fn files_without_number_or_with_a_number_seen_join_no_group() {
    let mut nameless = tagged(0, "a.zip", 10, &[]);
    nameless.file.id = None;
    let files = vec![
        nameless.clone(),
        tagged(1, "a.zip", 10, &[]),
        nameless,
        tagged(1, "a.zip", 10, &[]),
        tagged(2, "a.zip", 10, &[]),
        tagged(2, "a.zip", 10, &[]),
    ];
    assert_eq!(find_duplicate_groups(&files), vec![vec![1, 4]]);
}

#[test]
fn missing_files_are_listed_in_order() {
    let mut a = file(Some(1), "a", 1);
    a.author_name = Some("shop".to_string());
    a.product_name = Some("item".to_string());
    let files = vec![a, file(Some(2), "b", 1), file(None, "c", 1), file(Some(4), "d", 1)];
    let report = sync_report(&files, &vec![false, true, false]);
    assert_eq!(report.total_files, 4);
    assert_eq!(report.orphaned_files, 0);
    assert_eq!(report.updated_files, 0);
    let missing: Vec<(i64, &str)> =
        report.missing_files.iter().map(|m| (m.id, m.file_path.as_str())).collect();
    assert_eq!(missing, vec![(1, "/archive/a"), (0, "/archive/c")]);
    assert_eq!(report.missing_files[0].booth_shop_name.as_deref(), Some("shop"));
    assert_eq!(report.missing_files[0].booth_product_name.as_deref(), Some("item"));
    assert_eq!(report.missing_files[0].file_name, "a");
    assert!(sync_report(&files, &vec![true; 4]).missing_files.is_empty());
}

#[test]
fn pages_are_planned() {
    let plan = plan_page(3, 20, Some("file_name"), Some("ASC"), DEFAULT_FILE_SORT, &FILE_SORT_COLUMNS)
        .unwrap();
    assert_eq!(plan.sort_by, "file_name");
    assert_eq!(plan.direction, SortDirection::Ascending);
    assert_eq!(plan.limit, 20);
    assert_eq!(plan.offset, 40);

    let plan = plan_page(1, 50, None, None, DEFAULT_FILE_SORT, &FILE_SORT_COLUMNS).unwrap();
    assert_eq!(plan.sort_by, "created_at");
    assert_eq!(plan.direction, SortDirection::Descending);
    assert_eq!(plan.offset, 0);

    let plan = plan_page(0, 50, None, Some("Desc"), DEFAULT_TAG_SORT, &TAG_SORT_COLUMNS).unwrap();
    assert_eq!(plan.sort_by, "usage_count");
    assert_eq!(plan.offset, 0);

    let plan = plan_page(u32::MAX, u32::MAX, None, None, DEFAULT_TAG_SORT, &TAG_SORT_COLUMNS).unwrap();
    assert_eq!(plan.offset, (u32::MAX as u64 - 1) * u32::MAX as u64);
}

#[test]
fn pages_by_unknown_columns_or_directions_are_refused() {
    match plan_page(1, 10, Some("file_name; DROP TABLE files"), None, DEFAULT_FILE_SORT, &FILE_SORT_COLUMNS) {
        Err(AppError::Custom(message)) => {
            assert_eq!(message, "Invalid sort_by column: file_name; DROP TABLE files")
        }
        other => panic!("unexpected: {:?}", other),
    }
    match plan_page(1, 10, Some("name"), None, DEFAULT_FILE_SORT, &FILE_SORT_COLUMNS) {
        Err(AppError::Custom(message)) => assert_eq!(message, "Invalid sort_by column: name"),
        other => panic!("unexpected: {:?}", other),
    }
    assert!(plan_page(1, 10, Some("name"), None, DEFAULT_TAG_SORT, &TAG_SORT_COLUMNS).is_ok());
    match plan_page(1, 10, None, Some("sideways"), DEFAULT_FILE_SORT, &FILE_SORT_COLUMNS) {
        Err(AppError::Custom(message)) => assert_eq!(message, "Invalid sort_order: sideways"),
        other => panic!("unexpected: {:?}", other),
    }
    assert!(is_allowed_column("id", &FILE_SORT_COLUMNS));
    assert!(!is_allowed_column("ID", &FILE_SORT_COLUMNS));
    assert!(!is_allowed_column("", &FILE_SORT_COLUMNS));
    assert_eq!(parse_direction("asc"), Some(SortDirection::Ascending));
    assert_eq!(parse_direction("DESC"), Some(SortDirection::Descending));
    assert_eq!(parse_direction(" asc"), None);
    assert_eq!(parse_direction(""), None);
    assert_eq!(direction_keyword(SortDirection::Ascending), "ASC");
    assert_eq!(direction_keyword(SortDirection::Descending), "DESC");
}

#[test]
fn application_errors_are_sorted_and_worded() {
    let text = |s: &str| s.to_string();
    let cases: Vec<(AppError, ErrorCategory, &str, &str)> = vec![
        (
            AppError::validation(text("url"), text("empty")),
            ErrorCategory::UserError,
            "Validation error: url - empty",
            "url: empty",
        ),
        (
            AppError::UrlParse(text("relative URL without a base")),
            ErrorCategory::UserError,
            "URL parsing error: relative URL without a base",
            "無効なURLです。正しいBOOTH URLを入力してください。",
        ),
        (
            AppError::config(text("no folder")),
            ErrorCategory::ConfigError,
            "Configuration error: no folder",
            "設定エラー: no folder",
        ),
        (
            AppError::unknown(text("?")),
            ErrorCategory::FatalError,
            "Unknown error: ?",
            "予期しないエラー: ?",
        ),
        (
            AppError::Serialization(text("eof")),
            ErrorCategory::FatalError,
            "Serialization error: eof",
            "データの変換中にエラーが発生しました。",
        ),
        (
            AppError::encoding(text("bad byte")),
            ErrorCategory::SystemError,
            "Encoding error: bad byte",
            "文字エンコーディングエラー: bad byte",
        ),
        (
            AppError::Internal(text("bug")),
            ErrorCategory::SystemError,
            "Internal error: bug",
            "内部エラーが発生しました: bug",
        ),
        (
            AppError::Database(text("locked")),
            ErrorCategory::SystemError,
            "Database error: locked",
            "データベースエラーが発生しました。アプリケーションを再起動してください。",
        ),
        (
            AppError::Io(text("denied")),
            ErrorCategory::SystemError,
            "IO error: denied",
            "ファイル操作中にエラーが発生しました。ファイルの権限を確認してください。",
        ),
        (
            AppError::Network(text("down")),
            ErrorCategory::SystemError,
            "Network error: down",
            "ネットワークエラーが発生しました。インターネット接続を確認してください。",
        ),
        (
            AppError::ZipExtraction(text("crc")),
            ErrorCategory::SystemError,
            "ZIP extraction error: crc",
            "ZIPファイルの展開に失敗しました。ファイルが破損している可能性があります。",
        ),
        (
            AppError::BoothClient(BoothClientError::HttpError { status: 404 }),
            ErrorCategory::SystemError,
            "BOOTH client error: HTTP error: 404",
            "BOOTH商品情報の取得に失敗しました。URLを確認してください。",
        ),
        (AppError::database_lock(text("a")), ErrorCategory::SystemError, "a", "a"),
        (AppError::file_save(text("b")), ErrorCategory::SystemError, "b", "b"),
        (AppError::file_retrieval(text("c")), ErrorCategory::SystemError, "c", "c"),
        (AppError::file_deletion(text("d")), ErrorCategory::SystemError, "d", "d"),
        (AppError::file_update(text("e")), ErrorCategory::SystemError, "e", "e"),
        (AppError::tag_operation(text("f")), ErrorCategory::SystemError, "f", "f"),
        (AppError::tag_creation(text("g")), ErrorCategory::SystemError, "g", "g"),
        (AppError::custom(text("h")), ErrorCategory::SystemError, "h", "h"),
        (AppError::from_format(text("i")), ErrorCategory::SystemError, "i", "i"),
        (AppError::db_lock_from_format(text("j")), ErrorCategory::SystemError, "j", "j"),
        (AppError::file_save_from_format(text("k")), ErrorCategory::SystemError, "k", "k"),
        (AppError::file_retrieval_from_format(text("l")), ErrorCategory::SystemError, "l", "l"),
        (AppError::file_deletion_from_format(text("m")), ErrorCategory::SystemError, "m", "m"),
        (AppError::file_update_from_format(text("n")), ErrorCategory::SystemError, "n", "n"),
        (AppError::tag_operation_from_format(text("o")), ErrorCategory::SystemError, "o", "o"),
        (AppError::tag_creation_from_format(text("p")), ErrorCategory::SystemError, "p", "p"),
    ];
    for (error, category, message, user_message) in cases {
        assert_eq!(error.category(), category);
        assert_eq!(error.is_retryable(), category == ErrorCategory::SystemError);
        assert_eq!(error.message(), message);
        assert_eq!(error.user_message(), user_message);
    }
    assert_eq!(to_tauri_result(Ok::<i32, AppError>(5)), Ok(5));
    assert_eq!(
        to_tauri_result::<i32>(Err(AppError::Io("denied".to_string()))),
        Err("IO error: denied".to_string())
    );
}

#[test]
fn query_marks_are_joined_by_commas() {
    assert_eq!(placeholders(0), "");
    assert_eq!(placeholders(1), "?");
    assert_eq!(placeholders(2), "?,?");
    assert_eq!(placeholders(5), "?,?,?,?,?");
}

#[test]
fn default_tag_order_is_by_use_downwards() {
    let plan = |sort_by: Option<&str>, order: Option<&str>| {
        plan_page(1, 10, sort_by, order, DEFAULT_TAG_SORT, &TAG_SORT_COLUMNS).unwrap()
    };
    assert!(is_default_tag_order(&plan(None, None)));
    assert!(is_default_tag_order(&plan(Some("usage_count"), Some("DESC"))));
    assert!(!is_default_tag_order(&plan(Some("usage_count"), Some("asc"))));
    assert!(!is_default_tag_order(&plan(Some("name"), None)));
}

#[test]
fn new_tags_need_a_name() {
    let tag = new_tag("VRChat", None).unwrap();
    assert_eq!(tag.name, "VRChat");
    assert_eq!(tag.color, "#3498db");
    assert_eq!(tag.usage_count, 0);
    assert_eq!((tag.id, tag.category, tag.parent_tag_id, tag.created_at), (None, None, None, None));
    let tag = new_tag(" padded ", Some("#custom_color")).unwrap();
    assert_eq!(tag.name, " padded ");
    assert_eq!(tag.color, "#custom_color");
    for blank in ["", " ", "\t\n"] {
        match new_tag(blank, None) {
            Err(AppError::Custom(message)) => assert_eq!(message, "タグ名は空にできません"),
            other => panic!("unexpected: {:?}", other),
        }
    }
}

#[test]
fn results_are_worded() {
    let picked = FileSelectResult::from_selection(Some(vec!["a.zip".to_string(), "b.zip".to_string()]));
    assert!(picked.success);
    assert_eq!(picked.files, vec!["a.zip", "b.zip"]);
    assert_eq!(picked.message, "2個のファイルが選択されました");
    let none = FileSelectResult::from_selection(None);
    assert!(!none.success);
    assert!(none.files.is_empty());
    assert_eq!(none.message, "ファイルが選択されませんでした");
    let empty = FileSelectResult::from_selection(Some(Vec::new()));
    assert!(empty.success);
    assert_eq!(empty.message, "0個のファイルが選択されました");

    let mut failed = ProcessResult::failure("ZIPファイルが見つかりません: x.zip");
    assert!(!failed.success);
    assert_eq!(failed.message, "処理エラー: ZIPファイルが見つかりません: x.zip");
    assert!(failed.files_extracted.is_empty());
    assert_eq!((failed.shop_name.clone(), failed.product_name.clone(), failed.output_path.clone()), (None, None, None));
    failed.message = "3個のファイルを展開しました".to_string();
    failed.note_saved(42);
    assert_eq!(failed.message, "3個のファイルを展開しました (ID: 42でデータベースに保存されました)");

    assert_eq!(greet("World"), "Hello, World! You've been greeted from Rust!");
    let text = |n: i64| signed_text(n).into_iter().collect::<String>();
    for n in [0, 7, -7, 1234567890, i64::MAX, i64::MIN, -1] {
        assert_eq!(text(n), n.to_string());
    }
}
