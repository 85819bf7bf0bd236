//! Which addresses are product pages of the marketplace, and which product
//! they name.
//!
//! An address is taken apart by the `url` crate; the rules below read the
//! host and the path that it yields.

use crate::config::booth::{ITEMS_SEGMENT, MAIN_DOMAIN, SUBDOMAIN_SUFFIX};
use crate::errors::{BoothClientError, ClientFailure};
use crate::text::{
    all_ascii_digits, all_ascii_digits_chars, chars_eq, ends_with_chars, is_ascii_digit,
    lemma_short_numerals_parse, numeral_digits, parse_i64, parse_i64_chars, split, split_chars,
    to_chars, views,
};
use vstd::prelude::*;

verus! {

/// What the rules read of a parsed address.
#[derive(Debug, Clone)]
pub struct UrlParts {
    /// The host, where the address has one.
    pub host: Option<String>,
    /// The path, percent-encoded.
    pub path: String,
}

/// The parts of an address as mathematical values.
pub struct UrlPartsView {
    pub host: Option<Seq<char>>,
    pub path: Seq<char>,
}

impl View for UrlParts {
    type V = UrlPartsView;

    open spec fn view(&self) -> UrlPartsView {
        UrlPartsView { host: self.host.deep_view(), path: self.path@ }
    }
}

/// What `url::Url::parse` makes of `input`: `None` where it refuses the
/// text, else the host (`Url::host_str`) and the path (`Url::path`) of the
/// address.
pub uninterp spec fn parsed_url(input: Seq<char>) -> Option<UrlPartsView>;

/// Calls `url::Url::parse` and, where that accepts the text, reads
/// `Url::host_str` and `Url::path` of the result.
#[verifier::external_body]
fn parse_url(input: &str) -> (parts: Option<UrlParts>)
    ensures
        parts.deep_view() == parsed_url(input@),
{
    match url::Url::parse(input) {
        Ok(url) => Some(
            UrlParts { host: url.host_str().map(|host| host.to_string()), path: url.path().to_string() },
        ),
        Err(_) => None,
    }
}

impl DeepView for UrlParts {
    type V = UrlPartsView;

    open spec fn deep_view(&self) -> UrlPartsView {
        self@
    }
}

/// The host is the marketplace's domain or ends with its subdomain suffix.
pub open spec fn is_marketplace_host(host: Seq<char>) -> bool {
    host == MAIN_DOMAIN@ || SUBDOMAIN_SUFFIX@.is_suffix_of(host)
}

/// The host of an address, empty where it has none.
pub open spec fn host_text(url: UrlPartsView) -> Seq<char> {
    match url.host {
        Some(host) => host,
        None => Seq::empty(),
    }
}

/// The segments of a path: what stands between its slashes.
pub open spec fn path_segments(path: Seq<char>) -> Seq<Seq<char>> {
    split(path, seq!['/'])
}

/// A product number as it stands in a path: one ASCII digit or more.
pub open spec fn is_item_number(segment: Seq<char>) -> bool {
    segment.len() > 0 && all_ascii_digits(segment)
}

/// Segment `i` is `items` and the segment right after it is a product
/// number.
pub open spec fn item_pair_at(segments: Seq<Seq<char>>, i: int) -> bool {
    0 <= i && i + 1 < segments.len() && segments[i] == ITEMS_SEGMENT@ && is_item_number(
        segments[i + 1],
    )
}

/// The path holds a segment `items` with a product number right after it.
pub open spec fn has_item_path(path: Seq<char>) -> bool {
    exists|i: int| item_pair_at(path_segments(path), i)
}

/// The address is one of a product page of the marketplace.
pub open spec fn is_product_page(url: UrlPartsView) -> bool {
    is_marketplace_host(host_text(url)) && has_item_path(url.path)
}

/// The product number in the segments from `from` on: the integer after
/// the first `items` segment whose follower reads as one.
pub open spec fn item_id_from(segments: Seq<Seq<char>>, from: int) -> Option<i64>
    decreases segments.len() - from,
{
    if from < 0 || from + 1 >= segments.len() {
        None
    } else if segments[from] == ITEMS_SEGMENT@ && parse_i64(segments[from + 1]) is Some {
        parse_i64(segments[from + 1])
    } else {
        item_id_from(segments, from + 1)
    }
}

/// The product number that a path names.
pub open spec fn item_id_in_path(path: Seq<char>) -> Option<i64> {
    item_id_from(path_segments(path), 0)
}

/// The product number is that of the first pair of `items` and a segment
/// that reads as an integer; there is none exactly when there is no such
/// pair.
pub proof fn lemma_item_id_is_the_first(segments: Seq<Seq<char>>, from: int)
    requires
        0 <= from,
    ensures
        match item_id_from(segments, from) {
            Some(number) => exists|i: int|
                from <= i && i + 1 < segments.len() && #[trigger] segments[i] == ITEMS_SEGMENT@
                    && parse_i64(segments[i + 1]) == Some(number) && forall|j: int|
                    from <= j < i ==> !(#[trigger] segments[j] == ITEMS_SEGMENT@ && parse_i64(
                        segments[j + 1],
                    ) is Some),
            None => forall|j: int|
                from <= j && j + 1 < segments.len() ==> !(#[trigger] segments[j] == ITEMS_SEGMENT@
                    && parse_i64(segments[j + 1]) is Some),
        },
    decreases segments.len() - from,
{
    if from + 1 >= segments.len() {
    } else if segments[from] == ITEMS_SEGMENT@ && parse_i64(segments[from + 1]) is Some {
        assert(segments[from] == ITEMS_SEGMENT@);
    } else {
        lemma_item_id_is_the_first(segments, from + 1);
        match item_id_from(segments, from + 1) {
            Some(number) => {
                let i = choose|i: int|
                    from + 1 <= i && i + 1 < segments.len() && #[trigger] segments[i]
                        == ITEMS_SEGMENT@ && parse_i64(segments[i + 1]) == Some(number)
                        && forall|j: int|
                        from + 1 <= j < i ==> !(#[trigger] segments[j] == ITEMS_SEGMENT@
                            && parse_i64(segments[j + 1]) is Some);
                assert(segments[i] == ITEMS_SEGMENT@);
            },
            None => {},
        }
    }
}

/// The address of a product page names a product, unless every number in
/// it has more than eighteen digits: where the path holds `items` with a
/// number of at most eighteen digits right after it, a product number is
/// found.
pub proof fn lemma_product_pages_name_a_product(path: Seq<char>, i: int)
    requires
        item_pair_at(path_segments(path), i),
        path_segments(path)[i + 1].len() <= 18,
    ensures
        item_id_in_path(path) is Some,
{
    let segments = path_segments(path);
    let number = segments[i + 1];
    assert(number[0] != '-' && number[0] != '+') by {
        assert(is_ascii_digit(number[0]));
    }
    assert(numeral_digits(number) == number);
    lemma_short_numerals_parse(number);
    lemma_item_id_is_the_first(segments, 0);
    if item_id_in_path(path) is None {
        assert(!(segments[i] == ITEMS_SEGMENT@ && parse_i64(segments[i + 1]) is Some));
    }
}

impl UrlParts {
    /// Takes an address apart; `None` where the text is no absolute URL.
    pub fn parse(input: &str) -> (parts: Option<UrlParts>)
        ensures
            parts.deep_view() == parsed_url(input@),
    {
        parse_url(input)
    }
}

/// Whether the address belongs to the marketplace: its host is the
/// marketplace's domain or one of its subdomains.
pub fn is_valid_booth_url(url: &UrlParts) -> (valid: bool)
    ensures
        valid == is_marketplace_host(host_text(url@)),
{
    let host = match &url.host {
        Some(h) => to_chars(h.as_str()),
        None => Vec::new(),
    };
    chars_eq(&host, &to_chars(MAIN_DOMAIN)) || ends_with_chars(&host, &to_chars(SUBDOMAIN_SUFFIX))
}

/// The segments of `path`.
fn segments_of(path: &str) -> (segments: Vec<Vec<char>>)
    ensures
        views(segments@) == path_segments(path@),
        segments.len() >= 1,
{
    let mut slash: Vec<char> = Vec::new();
    slash.push('/');
    assert(slash@ == seq!['/']);
    split_chars(&to_chars(path), &slash)
}

/// Whether the path holds `items` with a product number right after it.
pub fn has_product_path(path: &str) -> (found: bool)
    ensures
        found == has_item_path(path@),
{
    let segments = segments_of(path);
    let items = to_chars(ITEMS_SEGMENT);
    let ghost all = views(segments@);
    let last: usize = segments.len() - 1;
    let mut i: usize = 0;
    while i < last
        invariant
            i <= last,
            last + 1 == segments.len(),
            all == views(segments@),
            all == path_segments(path@),
            items@ == ITEMS_SEGMENT@,
            forall|k: int| 0 <= k < i ==> !item_pair_at(all, k),
        decreases segments.len() - i,
    {
        assert(all[i as int] == segments@[i as int]@);
        assert(all[i + 1] == segments@[i + 1]@);
        if chars_eq(&segments[i], &items) && segments[i + 1].len() > 0 && all_ascii_digits_chars(
            &segments[i + 1],
        ) {
            assert(item_pair_at(all, i as int));
            return true;
        }
        i += 1;
    }
    false
}

/// Whether the parts are those of a product page of the marketplace.
pub fn is_product_page_url(url: &UrlParts) -> (valid: bool)
    ensures
        valid == is_product_page(url@),
{
    is_valid_booth_url(url) && has_product_path(url.path.as_str())
}

/// Whether `url` is a well-formed address of a product page of the
/// marketplace: it parses, its host is the marketplace's domain or ends
/// with the subdomain suffix, and its path holds `items` with a run of
/// ASCII digits right after it.
pub fn is_product_url(url: &str) -> (valid: bool)
    ensures
        valid == match parsed_url(url@) {
            Some(parts) => is_product_page(parts),
            None => false,
        },
{
    match UrlParts::parse(url) {
        Some(parts) => is_product_page_url(&parts),
        None => false,
    }
}

/// Says whether `url` is the address of a product page; never fails.
pub fn validate_booth_url(url: String) -> (verdict: Result<bool, String>)
    ensures
        verdict matches Ok(valid) && valid == match parsed_url(url@) {
            Some(parts) => is_product_page(parts),
            None => false,
        },
{
    Ok(is_product_url(url.as_str()))
}

/// What is reported when a path names no product.
pub open spec fn missing_product_id() -> ClientFailure {
    ClientFailure::ElementNotFound { element: "product ID"@ }
}

/// The product number that the address names: the integer in the segment
/// after the first `items` segment that has one. An address without such a
/// pair is refused.
pub fn extract_product_id(url: &UrlParts) -> (id: Result<i64, BoothClientError>)
    ensures
        match item_id_in_path(url@.path) {
            Some(number) => id == Ok::<i64, BoothClientError>(number),
            None => id matches Err(e) && e@ == missing_product_id(),
        },
{
    let segments = segments_of(url.path.as_str());
    let items = to_chars(ITEMS_SEGMENT);
    let ghost all = views(segments@);
    let last: usize = segments.len() - 1;
    let mut i: usize = 0;
    while i < last
        invariant
            i <= last,
            last + 1 == segments.len(),
            all == views(segments@),
            all == path_segments(url@.path),
            items@ == ITEMS_SEGMENT@,
            item_id_in_path(url@.path) == item_id_from(all, i as int),
        decreases segments.len() - i,
    {
        assert(all[i as int] == segments@[i as int]@);
        assert(all[i + 1] == segments@[i + 1]@);
        if chars_eq(&segments[i], &items) {
            match parse_i64_chars(&segments[i + 1]) {
                Some(number) => {
                    return Ok(number);
                },
                None => {},
            }
        }
        i += 1;
    }
    Err(BoothClientError::ElementNotFound { element: "product ID".to_string() })
}

} // verus!
