//! What can be said of a listing from its address alone, and how the
//! folders and files that belong to a listing are named.

use crate::config::booth::DEFAULT_SHOP_NAME;
use crate::errors::{BoothClientError, ClientFailure};
use crate::folder_names::{folder_name_of, sanitize_folder_name};
use crate::product::BoothProductInfo;
use crate::text::{
    concat_chars, contains, contains_chars, decimal_digits, decimal_text, from_chars, lowercase,
    to_chars, to_lowercase, trim, trim_chars,
};
use vstd::prelude::*;

verus! {

/// The shape of the address of a shop's product page: the shop's
/// subdomain is the first group, the product's number the second.
pub const PRODUCT_ADDRESS_PATTERN: &'static str = r"https://([^.]+)\.booth\.pm/items/(\d+)";

/// The shop's name where the address does not give one.
pub const UNKNOWN_SHOP: &'static str = "unknown_shop";

/// What a product is called that is known by its number only.
pub const PRODUCT_PREFIX: &'static str = "product_";

/// What `regex::Regex::new(pattern)` and then `Regex::captures(text)` give:
/// `None` where the pattern is refused; `Some(None)` where the pattern
/// matches nowhere in the text; else the groups of the leftmost match, the
/// whole match first, each with the text that it matched if it took part.
pub uninterp spec fn regex_groups(pattern: Seq<char>, text: Seq<char>) -> Option<
    Option<Seq<Option<Seq<char>>>>,
>;

/// Calls `regex::Regex::new` and `regex::Regex::captures`, and copies the
/// groups out of the `Captures` that come back.
#[verifier::external_body]
fn capture_groups(pattern: &str, text: &str) -> (groups: Option<Option<Vec<Option<String>>>>)
    ensures
        groups.deep_view() == regex_groups(pattern@, text@),
{
    match regex::Regex::new(pattern) {
        Ok(regex) => Some(
            regex.captures(text).map(
                |found| found.iter().map(|group| group.map(|m| m.as_str().to_string())).collect(),
            ),
        ),
        Err(_) => None,
    }
}

/// Group `i` of a match, where the match has such a group and it took
/// part.
pub open spec fn group_text(groups: Seq<Option<Seq<char>>>, i: int) -> Option<Seq<char>> {
    if 0 <= i < groups.len() {
        groups[i]
    } else {
        None
    }
}

/// The names that the groups of a matched address give: the shop is the
/// first group (`unknown_shop` without it), the product is `product_` and
/// the second group; without a second group there is no product.
pub open spec fn names_in_groups(groups: Seq<Option<Seq<char>>>) -> Result<
    (Seq<char>, Seq<char>),
    ClientFailure,
> {
    match group_text(groups, 2) {
        None => Err(crate::url_validator::missing_product_id()),
        Some(number) => Ok(
            (
                match group_text(groups, 1) {
                    Some(shop) => shop,
                    None => UNKNOWN_SHOP@,
                },
                PRODUCT_PREFIX@ + number,
            ),
        ),
    }
}

/// The names of shop and product that the address `url` gives by itself.
pub open spec fn names_in_address(url: Seq<char>) -> Result<(Seq<char>, Seq<char>), ClientFailure> {
    match regex_groups(PRODUCT_ADDRESS_PATTERN@, url) {
        None => Err(ClientFailure::ParseError),
        Some(None) => Err(ClientFailure::InvalidUrl { url }),
        Some(Some(groups)) => names_in_groups(groups),
    }
}

/// A pair of texts as mathematical values.
pub open spec fn pair_view(pair: (String, String)) -> (Seq<char>, Seq<char>) {
    (pair.0@, pair.1@)
}

fn group_at(groups: &Vec<Option<String>>, i: usize) -> (text: Option<String>)
    ensures
        text.deep_view() == group_text(groups.deep_view(), i as int),
{
    if i < groups.len() {
        crate::product::copy_text(&groups[i])
    } else {
        None
    }
}

/// Names shop and product by the groups of a matched address.
pub fn booth_info_from_groups(groups: &Vec<Option<String>>) -> (names: Result<
    (String, String),
    BoothClientError,
>)
    ensures
        match names_in_groups(groups.deep_view()) {
            Ok(expected) => names matches Ok(pair) && pair_view(pair) == expected,
            Err(failure) => names matches Err(e) && e@ == failure,
        },
{
    match group_at(groups, 2) {
        None => Err(BoothClientError::ElementNotFound { element: "product ID".to_string() }),
        Some(number) => {
            let shop = match group_at(groups, 1) {
                Some(shop) => shop,
                None => UNKNOWN_SHOP.to_string(),
            };
            let product = from_chars(
                &concat_chars(&to_chars(PRODUCT_PREFIX), &to_chars(number.as_str())),
            );
            Ok((shop, product))
        },
    }
}

/// Names shop and product by the address alone, for when the listing
/// cannot be resolved: the shop by its subdomain, the product by its
/// number. An address of another shape is refused.
pub fn extract_booth_info_fallback(url: &str) -> (names: Result<(String, String), BoothClientError>)
    ensures
        match names_in_address(url@) {
            Ok(expected) => names matches Ok(pair) && pair_view(pair) == expected,
            Err(failure) => names matches Err(e) && e@ == failure,
        },
{
    match capture_groups(PRODUCT_ADDRESS_PATTERN, url) {
        None => Err(BoothClientError::ParseError),
        Some(None) => Err(BoothClientError::InvalidUrl { url: url.to_string() }),
        Some(Some(groups)) => booth_info_from_groups(&groups),
    }
}

/// The folders of shop and product under which an archive is unpacked.
///
/// With the names of a resolved listing, the folders are made of them.
/// Without, the address is asked, where there is one. Where that fails too,
/// the shop is `Unknown_Shop` and the product is named after the archive.
pub open spec fn archive_folders(
    resolved: Option<(Seq<char>, Seq<char>)>,
    booth_url: Option<Seq<char>>,
    file_stem: Seq<char>,
) -> (Seq<char>, Seq<char>) {
    let names = match (booth_url, resolved) {
        (Some(_), Some(names)) => Some(names),
        (Some(url), None) => match names_in_address(url) {
            Ok(names) => Some(names),
            Err(_) => None,
        },
        (None, _) => None,
    };
    match names {
        Some((shop, product)) => (folder_name_of(shop), folder_name_of(product)),
        None => (DEFAULT_SHOP_NAME@, folder_name_of(file_stem)),
    }
}

/// Decides under which folders of shop and product an archive is
/// unpacked. `resolved` holds the names of the listing at `booth_url`
/// where its resolution succeeded; `file_stem` is the archive's file name
/// without its extension.
pub fn archive_folder_names(
    resolved: Option<(String, String)>,
    booth_url: Option<&str>,
    file_stem: &str,
) -> (folders: (String, String))
    ensures
        pair_view(folders) == archive_folders(
            match resolved {
                Some(pair) => Some(pair_view(pair)),
                None => None,
            },
            match booth_url {
                Some(url) => Some(url@),
                None => None,
            },
            file_stem@,
        ),
{
    let names = match booth_url {
        Some(url) => match resolved {
            Some(pair) => Some(pair),
            None => match extract_booth_info_fallback(url) {
                Ok(pair) => Some(pair),
                Err(_) => None,
            },
        },
        None => None,
    };
    match names {
        Some(pair) => (
            sanitize_folder_name(pair.0.as_str()),
            sanitize_folder_name(pair.1.as_str()),
        ),
        None => (DEFAULT_SHOP_NAME.to_string(), sanitize_folder_name(file_stem)),
    }
}

/// The extension of a thumbnail's file: that of the first of `.png`,
/// `.gif` and `.webp` that the address holds, and `jpg` without any.
pub open spec fn thumbnail_extension_of(url: Seq<char>) -> Seq<char> {
    if contains(url, ".png"@) {
        "png"@
    } else if contains(url, ".gif"@) {
        "gif"@
    } else if contains(url, ".webp"@) {
        "webp"@
    } else {
        "jpg"@
    }
}

/// The file name under which a listing's thumbnail is kept.
pub open spec fn thumbnail_name_of(shop: Seq<char>, product: Seq<char>, url: Seq<char>) -> Seq<
    char,
> {
    folder_name_of(shop) + seq!['_'] + folder_name_of(product) + seq!['.'] + thumbnail_extension_of(
        url,
    )
}

/// The extension for the file of the thumbnail at `thumbnail_url`.
pub fn thumbnail_extension(thumbnail_url: &str) -> (extension: &'static str)
    ensures
        extension@ == thumbnail_extension_of(thumbnail_url@),
{
    let address = to_chars(thumbnail_url);
    if contains_chars(&address, &to_chars(".png")) {
        "png"
    } else if contains_chars(&address, &to_chars(".gif")) {
        "gif"
    } else if contains_chars(&address, &to_chars(".webp")) {
        "webp"
    } else {
        "jpg"
    }
}

/// The file name for the thumbnail of a listing: the folder names of shop
/// and product with an underscore between, a dot, and the extension.
pub fn thumbnail_file_name(shop_name: &str, product_name: &str, thumbnail_url: &str) -> (name:
    String)
    ensures
        name@ == thumbnail_name_of(shop_name@, product_name@, thumbnail_url@),
{
    let mut name = to_chars(sanitize_folder_name(shop_name).as_str());
    name.push('_');
    let product = to_chars(sanitize_folder_name(product_name).as_str());
    let mut name = concat_chars(&name, &product);
    name.push('.');
    let name = concat_chars(&name, &to_chars(thumbnail_extension(thumbnail_url)));
    from_chars(&name)
}

/// What is said when an archive has been unpacked.
pub open spec fn extraction_message_of(count: nat) -> Seq<char> {
    decimal_digits(count) + "個のファイルを展開しました"@
}

/// The message for an archive of which `count` files were unpacked.
pub fn extraction_message(count: usize) -> (message: String)
    ensures
        message@ == extraction_message_of(count as nat),
{
    let number: u64 = count as u64;
    from_chars(&concat_chars(&decimal_text(number), &to_chars("個のファイルを展開しました")))
}

/// What is said of a record that lacks a name.
pub const INCOMPLETE_INFO_MESSAGE: &'static str =
    "商品情報が不完全です。正しい商品ページのURLを確認してください。";

/// What is said of a record whose product name is that of an error page.
pub const PAGE_NOT_FOUND_MESSAGE: &'static str =
    "商品ページが見つかりません。URLを確認してください。";

/// The product name is what an error page shows in place of one: in lower
/// case it holds `not found`, `404`, or the Japanese for "not found" or
/// "error".
pub open spec fn names_an_error_page(product_name: Seq<char>) -> bool {
    let lowered = lowercase(product_name);
    contains(lowered, "not found"@) || contains(lowered, "404"@) || contains(
        lowered,
        "見つかりません"@,
    ) || contains(lowered, "エラー"@)
}

/// What is wrong with a record that the interface is about to show, if
/// anything: a blank name of shop or product, or a product name that
/// comes from an error page.
pub open spec fn record_problem(shop_name: Seq<char>, product_name: Seq<char>) -> Option<Seq<char>> {
    if trim(shop_name).len() == 0 || trim(product_name).len() == 0 {
        Some(INCOMPLETE_INFO_MESSAGE@)
    } else if names_an_error_page(product_name) {
        Some(PAGE_NOT_FOUND_MESSAGE@)
    } else {
        None
    }
}

/// Checks a resolved record before the interface shows it.
pub fn vet_product_info(info: &BoothProductInfo) -> (verdict: Result<(), String>)
    ensures
        match record_problem(info@.shop_name, info@.product_name) {
            None => verdict is Ok,
            Some(message) => verdict matches Err(said) && said@ == message,
        },
{
    let shop = trim_chars(&to_chars(info.shop_name.as_str()));
    let product = trim_chars(&to_chars(info.product_name.as_str()));
    if shop.len() == 0 || product.len() == 0 {
        return Err(INCOMPLETE_INFO_MESSAGE.to_string());
    }
    let lowered = to_chars(to_lowercase(info.product_name.as_str()).as_str());
    if contains_chars(&lowered, &to_chars("not found")) || contains_chars(&lowered, &to_chars("404"))
        || contains_chars(&lowered, &to_chars("見つかりません")) || contains_chars(
        &lowered,
        &to_chars("エラー"),
    ) {
        return Err(PAGE_NOT_FOUND_MESSAGE.to_string());
    }
    Ok(())
}

/// What is said when a listing could not be resolved.
pub open spec fn resolution_failure_message(failure: ClientFailure) -> Seq<char> {
    "BOOTH商品情報の取得に失敗しました: "@ + failure.message()
        + " (購入ページやカートページではなく、商品ページのURLを入力してください)"@
}

/// The message for a listing that could not be resolved.
pub fn resolution_failure(error: &BoothClientError) -> (message: String)
    ensures
        message@ == resolution_failure_message(error@),
{
    let text = concat_chars(
        &to_chars("BOOTH商品情報の取得に失敗しました: "),
        &to_chars(error.message().as_str()),
    );
    from_chars(
        &concat_chars(
            &text,
            &to_chars(" (購入ページやカートページではなく、商品ページのURLを入力してください)"),
        ),
    )
}


} // verus!
