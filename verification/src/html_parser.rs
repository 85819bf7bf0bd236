//! Field extraction from a listing's HTML page.
//!
//! Each field has an ordered list of selectors. A selector gives a
//! candidate (what the first element it matches holds); the field is the
//! first candidate that the field's rule accepts.

use crate::denylist::is_excluded;
use crate::document::{
    element_texts, first_attribute, first_text, select_first_attribute, select_first_text,
    select_texts,
};
use crate::price::{parse_element_price, price_in_element};
use crate::selectors::{
    CONTENT_ATTRIBUTE, DESCRIPTION_SELECTORS, LAZY_SOURCE_ATTRIBUTE, META_MARK, PRICE_SELECTORS,
    PRODUCT_NAME_SELECTORS, SHOP_NAME_SELECTORS, SOURCE_ATTRIBUTE, TAG_SELECTORS,
    THUMBNAIL_SELECTORS, TITLE_SELECTOR,
};
use crate::tags::{collect_tags, filter_tags};
use crate::text::{
    chars_eq, contains, contains_chars, copy_range, ends_with_chars, from_chars,
    join, join_chars, lemma_trim_is_idempotent, lowercase, split, split_chars, to_chars,
    to_lowercase, trim, trim_chars, trim_end, trim_end_chars, views,
};
use scraper::Html;
use vstd::prelude::*;

verus! {

/// The brand of the marketplace, in lower case: a heading that holds it is
/// the site's own, not a product's.
pub const BRAND_LOWERCASE: &'static str = "booth";

/// What the marketplace puts at the end of a page title.
pub const BRAND_SUFFIX: &'static str = " - BOOTH";

/// What stands between the parts of a page title.
pub const TITLE_SEPARATOR: &'static str = " - ";

/// The trimmed text, where anything is left of it.
pub open spec fn nonblank(text: Seq<char>) -> Option<Seq<char>> {
    let trimmed = trim(text);
    if trimmed.len() > 0 {
        Some(trimmed)
    } else {
        None
    }
}

/// The text, where it is not empty.
pub open spec fn nonempty(text: Seq<char>) -> Option<Seq<char>> {
    if text.len() > 0 {
        Some(text)
    } else {
        None
    }
}

/// The text holds the marketplace's brand, in whatever case.
pub open spec fn mentions_brand(text: Seq<char>) -> bool {
    contains(lowercase(text), BRAND_LOWERCASE@)
}

/// The trimmed text as a product name: it must not be blank, must not hold
/// the marketplace's brand, and must differ from the shop's name.
pub open spec fn product_name_candidate(text: Seq<char>, shop_name: Option<Seq<char>>) -> Option<
    Seq<char>,
> {
    let trimmed = trim(text);
    if trimmed.len() > 0 && !mentions_brand(trimmed) && Some(trimmed) != shop_name {
        Some(trimmed)
    } else {
        None
    }
}

/// The first candidate that `accept` accepts, as `accept` returns it.
pub open spec fn first_accepted<T>(
    candidates: Seq<Option<Seq<char>>>,
    accept: spec_fn(Seq<char>) -> Option<T>,
) -> Option<T>
    decreases candidates.len(),
{
    if candidates.len() == 0 {
        None
    } else {
        let head = match candidates[0] {
            Some(text) => accept(text),
            None => None,
        };
        if head is Some {
            head
        } else {
            first_accepted(candidates.drop_first(), accept)
        }
    }
}

/// The shop name among the candidates: the first that is not blank.
pub open spec fn shop_name_among(candidates: Seq<Option<Seq<char>>>) -> Option<Seq<char>> {
    first_accepted(candidates, |text: Seq<char>| nonblank(text))
}

/// The product name among the candidates.
pub open spec fn product_name_among(
    candidates: Seq<Option<Seq<char>>>,
    shop_name: Option<Seq<char>>,
) -> Option<Seq<char>> {
    first_accepted(candidates, |text: Seq<char>| product_name_candidate(text, shop_name))
}

/// The price among the candidates: the first that reads as an integer once
/// the price marks are taken out.
pub open spec fn price_among(candidates: Seq<Option<Seq<char>>>) -> Option<i64> {
    first_accepted(candidates, |text: Seq<char>| price_in_element(text))
}

/// The description among the candidates: the first that is not blank.
pub open spec fn description_among(candidates: Seq<Option<Seq<char>>>) -> Option<Seq<char>> {
    first_accepted(candidates, |text: Seq<char>| nonblank(text))
}

/// The image address among the candidates: the first that is not empty.
pub open spec fn thumbnail_among(candidates: Seq<Option<Seq<char>>>) -> Option<Seq<char>> {
    first_accepted(candidates, |text: Seq<char>| nonempty(text))
}

/// What is accepted among the candidates was accepted of one of them.
pub proof fn lemma_first_accepted_is_accepted<T>(
    candidates: Seq<Option<Seq<char>>>,
    accept: spec_fn(Seq<char>) -> Option<T>,
)
    ensures
        first_accepted(candidates, accept) is Some ==> exists|i: int|
            0 <= i < candidates.len() && (#[trigger] candidates[i]) is Some && accept(
                candidates[i]->0,
            ) == first_accepted(candidates, accept),
        first_accepted(candidates, accept) is None ==> forall|i: int|
            0 <= i < candidates.len() && (#[trigger] candidates[i]) is Some ==> accept(
                candidates[i]->0,
            ) is None,
    decreases candidates.len(),
{
    if candidates.len() > 0 {
        let head = match candidates[0] {
            Some(text) => accept(text),
            None => None,
        };
        let rest = candidates.drop_first();
        lemma_first_accepted_is_accepted(rest, accept);
        if head is Some {
            assert(candidates[0] is Some && accept(candidates[0]->0) == first_accepted(
                candidates,
                accept,
            ));
        } else {
            if first_accepted(candidates, accept) is Some {
                let i = choose|i: int|
                    0 <= i < rest.len() && (#[trigger] rest[i]) is Some && accept(rest[i]->0)
                        == first_accepted(rest, accept);
                assert(candidates[i + 1] == rest[i]);
            } else {
                assert forall|i: int|
                    0 <= i < candidates.len() && (#[trigger] candidates[i]) is Some implies accept(
                    candidates[i]->0,
                ) is None by {
                    if i > 0 {
                        assert(candidates[i] == rest[i - 1]);
                    }
                }
            }
        }
    }
}

/// A name found among the candidates is never empty, and a product name
/// found never holds the marketplace's brand nor repeats the shop's name.
pub proof fn lemma_names_among_candidates(
    candidates: Seq<Option<Seq<char>>>,
    shop_name: Option<Seq<char>>,
)
    ensures
        shop_name_among(candidates) matches Some(name) ==> name.len() > 0 && trim(name) == name,
        product_name_among(candidates, shop_name) matches Some(name) ==> name.len() > 0
            && !mentions_brand(name) && Some(name) != shop_name,
{
    lemma_first_accepted_is_accepted(candidates, |text: Seq<char>| nonblank(text));
    lemma_first_accepted_is_accepted(
        candidates,
        |text: Seq<char>| product_name_candidate(text, shop_name),
    );
    if shop_name_among(candidates) is Some {
        let i = choose|i: int|
            0 <= i < candidates.len() && (#[trigger] candidates[i]) is Some && nonblank(
                candidates[i]->0,
            ) == shop_name_among(candidates);
        lemma_trim_is_idempotent(candidates[i]->0);
    }
}

/// Picks the shop name among the texts that the selectors gave.
pub fn choose_shop_name(candidates: &Vec<Option<String>>) -> (name: Option<String>)
    ensures
        name.deep_view() == shop_name_among(candidates.deep_view()),
        name matches Some(n) ==> n@.len() > 0,
{
    let ghost all = candidates.deep_view();
    assert(all.skip(0) == all);
    let mut i: usize = 0;
    while i < candidates.len()
        invariant
            i <= candidates.len(),
            all == candidates.deep_view(),
            shop_name_among(all) == shop_name_among(all.skip(i as int)),
        decreases candidates.len() - i,
    {
        proof {
            assert(all.skip(i as int).drop_first() == all.skip(i + 1));
            assert(all.skip(i as int)[0] == candidates@[i as int].deep_view());
        }
        match &candidates[i] {
            Some(text) => {
                let trimmed = trim_chars(&to_chars(text.as_str()));
                if trimmed.len() > 0 {
                    return Some(from_chars(&trimmed));
                }
            },
            None => {},
        }
        i += 1;
    }
    None
}

/// Whether `text` holds the marketplace's brand in whatever case.
pub fn text_mentions_brand(text: &Vec<char>) -> (r: bool)
    ensures
        r == mentions_brand(text@),
{
    let lowered = to_lowercase(from_chars(text).as_str());
    contains_chars(&to_chars(lowered.as_str()), &to_chars(BRAND_LOWERCASE))
}

/// Picks the product name among the texts that the selectors gave;
/// `shop_name` is the shop's name as the selectors found it.
pub fn choose_product_name(candidates: &Vec<Option<String>>, shop_name: &Option<String>) -> (name:
    Option<String>)
    ensures
        name.deep_view() == product_name_among(candidates.deep_view(), shop_name.deep_view()),
        name matches Some(n) ==> n@.len() > 0,
{
    let ghost all = candidates.deep_view();
    let ghost shop = shop_name.deep_view();
    assert(all.skip(0) == all);
    let mut i: usize = 0;
    while i < candidates.len()
        invariant
            i <= candidates.len(),
            all == candidates.deep_view(),
            shop == shop_name.deep_view(),
            product_name_among(all, shop) == product_name_among(all.skip(i as int), shop),
        decreases candidates.len() - i,
    {
        proof {
            assert(all.skip(i as int).drop_first() == all.skip(i + 1));
            assert(all.skip(i as int)[0] == candidates@[i as int].deep_view());
        }
        match &candidates[i] {
            Some(text) => {
                let trimmed = trim_chars(&to_chars(text.as_str()));
                if trimmed.len() > 0 && !text_mentions_brand(&trimmed) {
                    let same = match shop_name {
                        Some(shop_text) => chars_eq(&trimmed, &to_chars(shop_text.as_str())),
                        None => false,
                    };
                    if !same {
                        return Some(from_chars(&trimmed));
                    }
                }
            },
            None => {},
        }
        i += 1;
    }
    None
}

/// Picks the price among the texts that the selectors gave.
pub fn choose_price(candidates: &Vec<Option<String>>) -> (price: Option<i64>)
    ensures
        price == price_among(candidates.deep_view()),
{
    let ghost all = candidates.deep_view();
    assert(all.skip(0) == all);
    let mut i: usize = 0;
    while i < candidates.len()
        invariant
            i <= candidates.len(),
            all == candidates.deep_view(),
            price_among(all) == price_among(all.skip(i as int)),
        decreases candidates.len() - i,
    {
        proof {
            assert(all.skip(i as int).drop_first() == all.skip(i + 1));
            assert(all.skip(i as int)[0] == candidates@[i as int].deep_view());
        }
        match &candidates[i] {
            Some(text) => {
                let price = parse_element_price(text.as_str());
                if price.is_some() {
                    return price;
                }
            },
            None => {},
        }
        i += 1;
    }
    None
}

/// Picks the description among what the selectors gave.
pub fn choose_description(candidates: &Vec<Option<String>>) -> (description: Option<String>)
    ensures
        description.deep_view() == description_among(candidates.deep_view()),
{
    let ghost all = candidates.deep_view();
    assert(all.skip(0) == all);
    let mut i: usize = 0;
    while i < candidates.len()
        invariant
            i <= candidates.len(),
            all == candidates.deep_view(),
            description_among(all) == description_among(all.skip(i as int)),
        decreases candidates.len() - i,
    {
        proof {
            assert(all.skip(i as int).drop_first() == all.skip(i + 1));
            assert(all.skip(i as int)[0] == candidates@[i as int].deep_view());
        }
        match &candidates[i] {
            Some(text) => {
                let trimmed = trim_chars(&to_chars(text.as_str()));
                if trimmed.len() > 0 {
                    return Some(from_chars(&trimmed));
                }
            },
            None => {},
        }
        i += 1;
    }
    None
}

/// Picks the image address among what the selectors gave.
pub fn choose_thumbnail_url(candidates: &Vec<Option<String>>) -> (url: Option<String>)
    ensures
        url.deep_view() == thumbnail_among(candidates.deep_view()),
{
    let ghost all = candidates.deep_view();
    assert(all.skip(0) == all);
    let mut i: usize = 0;
    while i < candidates.len()
        invariant
            i <= candidates.len(),
            all == candidates.deep_view(),
            thumbnail_among(all) == thumbnail_among(all.skip(i as int)),
        decreases candidates.len() - i,
    {
        proof {
            assert(all.skip(i as int).drop_first() == all.skip(i + 1));
            assert(all.skip(i as int)[0] == candidates@[i as int].deep_view());
        }
        match &candidates[i] {
            Some(text) => {
                if !text.as_str().is_empty() {
                    return Some(text.clone());
                }
            },
            None => {},
        }
        i += 1;
    }
    None
}

/// For each selector, the text of the first element that it matches.
pub open spec fn text_candidates(doc: Html, selectors: Seq<&'static str>) -> Seq<Option<Seq<char>>> {
    Seq::new(selectors.len(), |i: int| first_text(doc, selectors[i]@))
}

/// What a description selector gives: the `content` attribute of the first
/// element where the selector names a `meta` element, its text otherwise.
pub open spec fn description_candidate(doc: Html, selector: Seq<char>) -> Option<Seq<char>> {
    if contains(selector, META_MARK@) {
        match first_attribute(doc, selector, CONTENT_ATTRIBUTE@) {
            Some(value) => value,
            None => None,
        }
    } else {
        first_text(doc, selector)
    }
}

/// What an image selector gives: of the first element, the `content`
/// attribute where the selector names a `meta` element; otherwise its `src`
/// attribute or, where it has none, its `data-src` attribute.
pub open spec fn thumbnail_candidate(doc: Html, selector: Seq<char>) -> Option<Seq<char>> {
    if contains(selector, META_MARK@) {
        match first_attribute(doc, selector, CONTENT_ATTRIBUTE@) {
            Some(value) => value,
            None => None,
        }
    } else {
        match first_attribute(doc, selector, SOURCE_ATTRIBUTE@) {
            Some(Some(address)) => Some(address),
            Some(None) => match first_attribute(doc, selector, LAZY_SOURCE_ATTRIBUTE@) {
                Some(value) => value,
                None => None,
            },
            None => None,
        }
    }
}

pub open spec fn description_candidates(doc: Html, selectors: Seq<&'static str>) -> Seq<
    Option<Seq<char>>,
> {
    Seq::new(selectors.len(), |i: int| description_candidate(doc, selectors[i]@))
}

pub open spec fn thumbnail_candidates(doc: Html, selectors: Seq<&'static str>) -> Seq<
    Option<Seq<char>>,
> {
    Seq::new(selectors.len(), |i: int| thumbnail_candidate(doc, selectors[i]@))
}

/// The texts of all the elements that the selectors match, selector by
/// selector.
pub open spec fn texts_of_all(doc: Html, selectors: Seq<&'static str>) -> Seq<Seq<char>>
    decreases selectors.len(),
{
    if selectors.len() == 0 {
        Seq::empty()
    } else {
        texts_of_all(doc, selectors.drop_last()) + element_texts(doc, selectors.last()@)
    }
}

/// The shop name that the selectors find on the page.
pub open spec fn selected_shop_name(doc: Html) -> Option<Seq<char>> {
    shop_name_among(text_candidates(doc, SHOP_NAME_SELECTORS@))
}

/// The product name that the selectors find on the page.
pub open spec fn selected_product_name(doc: Html) -> Option<Seq<char>> {
    product_name_among(text_candidates(doc, PRODUCT_NAME_SELECTORS@), selected_shop_name(doc))
}

/// The price that the page shows.
pub open spec fn selected_price(doc: Html) -> Option<i64> {
    price_among(text_candidates(doc, PRICE_SELECTORS@))
}

/// The description that the page shows.
pub open spec fn selected_description(doc: Html) -> Option<Seq<char>> {
    description_among(description_candidates(doc, DESCRIPTION_SELECTORS@))
}

/// The address of the image that the page shows.
pub open spec fn selected_thumbnail_url(doc: Html) -> Option<Seq<char>> {
    thumbnail_among(thumbnail_candidates(doc, THUMBNAIL_SELECTORS@))
}

/// The tags that the page shows.
pub open spec fn selected_tags(doc: Html) -> Seq<Seq<char>> {
    collect_tags(texts_of_all(doc, TAG_SELECTORS@))
}

/// The shop name that a page title holds: its last part but one, trimmed,
/// where the title has two parts or more and that part is not blank.
pub open spec fn shop_name_in_title(title: Seq<char>) -> Option<Seq<char>> {
    let parts = split(title, TITLE_SEPARATOR@);
    if parts.len() >= 2 {
        nonblank(parts[parts.len() - 2])
    } else {
        None
    }
}

/// The title without the whitespace and the marketplace's suffix at its
/// end.
pub open spec fn without_brand_suffix(title: Seq<char>) -> Seq<char> {
    let trimmed = trim_end(title);
    if BRAND_SUFFIX@.is_suffix_of(trimmed) {
        trimmed.take(trimmed.len() - BRAND_SUFFIX@.len())
    } else {
        trimmed
    }
}

/// The product name that a page title holds: once the marketplace's suffix
/// is off, all parts but the last (which names the shop), joined again; the
/// whole where there is one part only. `None` where that is blank.
pub open spec fn product_name_in_title(title: Seq<char>) -> Option<Seq<char>> {
    let parts = split(without_brand_suffix(title), TITLE_SEPARATOR@);
    if parts.len() >= 2 {
        nonblank(join(parts.drop_last(), TITLE_SEPARATOR@))
    } else {
        nonblank(parts[0])
    }
}

/// The title of the page, where it has one.
pub open spec fn page_title(doc: Html) -> Option<Seq<char>> {
    first_text(doc, TITLE_SELECTOR@)
}

/// The shop name of the page: what the selectors find, else what the title
/// holds.
pub open spec fn page_shop_name(doc: Html) -> Option<Seq<char>> {
    match selected_shop_name(doc) {
        Some(name) => Some(name),
        None => match page_title(doc) {
            Some(title) => shop_name_in_title(title),
            None => None,
        },
    }
}

/// The product name of the page: what the selectors find, else what the
/// title holds.
pub open spec fn page_product_name(doc: Html) -> Option<Seq<char>> {
    match selected_product_name(doc) {
        Some(name) => Some(name),
        None => match page_title(doc) {
            Some(title) => product_name_in_title(title),
            None => None,
        },
    }
}

/// The names that a page gives are never empty.
pub proof fn lemma_page_names_not_empty(doc: Html)
    ensures
        page_shop_name(doc) matches Some(name) ==> name.len() > 0,
        page_product_name(doc) matches Some(name) ==> name.len() > 0,
{
    lemma_names_among_candidates(text_candidates(doc, SHOP_NAME_SELECTORS@), None);
    lemma_names_among_candidates(
        text_candidates(doc, PRODUCT_NAME_SELECTORS@),
        selected_shop_name(doc),
    );
}

/// The separator has three characters and the suffix eight.
proof fn lemma_title_marks()
    ensures
        TITLE_SEPARATOR@.len() == 3,
        BRAND_SUFFIX@.len() == 8,
{
    reveal_strlit(" - ");
    reveal_strlit(" - BOOTH");
}

/// The shop name that the page title `title` holds.
pub fn shop_name_from_title(title: &str) -> (name: Option<String>)
    ensures
        name.deep_view() == shop_name_in_title(title@),
        name matches Some(n) ==> n@.len() > 0,
{
    proof {
        lemma_title_marks();
    }
    let parts = split_chars(&to_chars(title), &to_chars(TITLE_SEPARATOR));
    if parts.len() >= 2 {
        let trimmed = trim_chars(&parts[parts.len() - 2]);
        assert(views(parts@)[parts.len() - 2] == parts@[parts.len() - 2]@);
        if trimmed.len() > 0 {
            Some(from_chars(&trimmed))
        } else {
            None
        }
    } else {
        None
    }
}

/// The product name that the page title `title` holds.
pub fn product_name_from_title(title: &str) -> (name: Option<String>)
    ensures
        name.deep_view() == product_name_in_title(title@),
        name matches Some(n) ==> n@.len() > 0,
{
    proof {
        lemma_title_marks();
    }
    let trimmed_title = trim_end_chars(&to_chars(title));
    let suffix = to_chars(BRAND_SUFFIX);
    let separator = to_chars(TITLE_SEPARATOR);
    let cleaned = if ends_with_chars(&trimmed_title, &suffix) {
        let kept = copy_range(&trimmed_title, 0, trimmed_title.len() - suffix.len());
        assert(kept@ == trimmed_title@.take(trimmed_title.len() - suffix.len()));
        kept
    } else {
        trimmed_title
    };
    assert(cleaned@ == without_brand_suffix(title@));
    let mut parts = split_chars(&cleaned, &separator);
    let joined = if parts.len() >= 2 {
        let ghost all = views(parts@);
        parts.pop();
        assert(views(parts@) == all.drop_last());
        join_chars(&parts, &separator)
    } else {
        assert(views(parts@)[0] == parts@[0]@);
        let whole = copy_range(&parts[0], 0, parts[0].len());
        assert(whole@ == parts@[0]@);
        whole
    };
    let trimmed = trim_chars(&joined);
    if trimmed.len() > 0 {
        Some(from_chars(&trimmed))
    } else {
        None
    }
}

/// For each selector, the text of the first element that it matches in
/// `doc`.
pub fn gather_texts(doc: &Html, selectors: &[&'static str]) -> (candidates: Vec<Option<String>>)
    ensures
        candidates.deep_view() == text_candidates(*doc, selectors@),
{
    let mut candidates: Vec<Option<String>> = Vec::new();
    let mut i: usize = 0;
    while i < selectors.len()
        invariant
            i <= selectors.len(),
            candidates.len() == i,
            forall|k: int|
                0 <= k < i ==> (#[trigger] candidates@[k]).deep_view() == first_text(
                    *doc,
                    selectors@[k]@,
                ),
        decreases selectors.len() - i,
    {
        candidates.push(select_first_text(doc, selectors[i]));
        i += 1;
    }
    assert(candidates.deep_view() =~= text_candidates(*doc, selectors@));
    candidates
}

/// Whether the selector names a `meta` element.
fn names_meta(selector: &str) -> (r: bool)
    ensures
        r == contains(selector@, META_MARK@),
{
    contains_chars(&to_chars(selector), &to_chars(META_MARK))
}

/// The content attribute of the first element that `selector` matches.
fn first_content(doc: &Html, selector: &str) -> (value: Option<String>)
    ensures
        value.deep_view() == (match first_attribute(*doc, selector@, CONTENT_ATTRIBUTE@) {
            Some(v) => v,
            None => None,
        }),
{
    match select_first_attribute(doc, selector, CONTENT_ATTRIBUTE) {
        Some(v) => v,
        None => None,
    }
}

/// What the description selector `selector` gives on `doc`.
fn gather_description(doc: &Html, selector: &str) -> (candidate: Option<String>)
    ensures
        candidate.deep_view() == description_candidate(*doc, selector@),
{
    if names_meta(selector) {
        first_content(doc, selector)
    } else {
        select_first_text(doc, selector)
    }
}

/// What the image selector `selector` gives on `doc`.
fn gather_thumbnail(doc: &Html, selector: &str) -> (candidate: Option<String>)
    ensures
        candidate.deep_view() == thumbnail_candidate(*doc, selector@),
{
    if names_meta(selector) {
        first_content(doc, selector)
    } else {
        match select_first_attribute(doc, selector, SOURCE_ATTRIBUTE) {
            Some(Some(address)) => Some(address),
            Some(None) => match select_first_attribute(doc, selector, LAZY_SOURCE_ATTRIBUTE) {
                Some(v) => v,
                None => None,
            },
            None => None,
        }
    }
}

/// The strategy by which listing pages are read today.
pub struct DefaultBoothParser;

impl DefaultBoothParser {
    /// The shop name that the selectors find on the page.
    pub fn parse_shop_name(&self, document: &Html) -> (name: Option<String>)
        ensures
            name.deep_view() == selected_shop_name(*document),
            name matches Some(n) ==> n@.len() > 0,
    {
        choose_shop_name(&gather_texts(document, SHOP_NAME_SELECTORS.as_slice()))
    }

    /// The product name that the selectors find on the page.
    pub fn parse_product_name(&self, document: &Html) -> (name: Option<String>)
        ensures
            name.deep_view() == selected_product_name(*document),
            name matches Some(n) ==> n@.len() > 0,
    {
        let shop_name = self.parse_shop_name(document);
        choose_product_name(&gather_texts(document, PRODUCT_NAME_SELECTORS.as_slice()), &shop_name)
    }

    /// The price that the page shows.
    pub fn parse_price(&self, document: &Html) -> (price: Option<i64>)
        ensures
            price == selected_price(*document),
    {
        choose_price(&gather_texts(document, PRICE_SELECTORS.as_slice()))
    }

    /// The description that the page shows.
    pub fn parse_description(&self, document: &Html) -> (description: Option<String>)
        ensures
            description.deep_view() == selected_description(*document),
    {
        let selectors = DESCRIPTION_SELECTORS.as_slice();
        let mut candidates: Vec<Option<String>> = Vec::new();
        let mut i: usize = 0;
        while i < selectors.len()
            invariant
                i <= selectors.len(),
                candidates.len() == i,
                forall|k: int|
                    0 <= k < i ==> (#[trigger] candidates@[k]).deep_view() == description_candidate(
                        *document,
                        selectors@[k]@,
                    ),
            decreases selectors.len() - i,
        {
            candidates.push(gather_description(document, selectors[i]));
            i += 1;
        }
        assert(candidates.deep_view() =~= description_candidates(*document, selectors@));
        choose_description(&candidates)
    }

    /// The address of the image that the page shows.
    pub fn parse_thumbnail_url(&self, document: &Html) -> (url: Option<String>)
        ensures
            url.deep_view() == selected_thumbnail_url(*document),
    {
        let selectors = THUMBNAIL_SELECTORS.as_slice();
        let mut candidates: Vec<Option<String>> = Vec::new();
        let mut i: usize = 0;
        while i < selectors.len()
            invariant
                i <= selectors.len(),
                candidates.len() == i,
                forall|k: int|
                    0 <= k < i ==> (#[trigger] candidates@[k]).deep_view() == thumbnail_candidate(
                        *document,
                        selectors@[k]@,
                    ),
            decreases selectors.len() - i,
        {
            candidates.push(gather_thumbnail(document, selectors[i]));
            i += 1;
        }
        assert(candidates.deep_view() =~= thumbnail_candidates(*document, selectors@));
        choose_thumbnail_url(&candidates)
    }

    /// The tags that the page shows: no tag twice, none shorter than 2 or
    /// longer than 50 characters, none an interface phrase.
    pub fn parse_tags(&self, document: &Html) -> (tags: Vec<String>)
        ensures
            tags.deep_view() == selected_tags(*document),
            tags.deep_view().no_duplicates(),
            forall|i: int|
                0 <= i < tags.len() ==> 2 <= (#[trigger] tags.deep_view()[i]).len() <= 50
                    && !is_excluded(tags.deep_view()[i]),
    {
        let selectors = TAG_SELECTORS.as_slice();
        let mut texts: Vec<String> = Vec::new();
        let mut i: usize = 0;
        while i < selectors.len()
            invariant
                i <= selectors.len(),
                texts.deep_view() == texts_of_all(*document, selectors@.take(i as int)),
            decreases selectors.len() - i,
        {
            let mut found = select_texts(document, selectors[i]);
            let ghost before = texts.deep_view();
            let ghost added = found.deep_view();
            texts.append(&mut found);
            proof {
                assert(texts.deep_view() =~= before + added);
                assert(selectors@.take(i + 1).drop_last() == selectors@.take(i as int));
                assert(selectors@.take(i + 1).last() == selectors@[i as int]);
            }
            i += 1;
        }
        assert(selectors@.take(selectors.len() as int) == selectors@);
        filter_tags(&texts)
    }

    /// The shop name that the title of the page holds.
    pub fn fallback_parse_shop_name(&self, document: &Html) -> (name: Option<String>)
        ensures
            name.deep_view() == (match page_title(*document) {
                Some(title) => shop_name_in_title(title),
                None => None,
            }),
            name matches Some(n) ==> n@.len() > 0,
    {
        match select_first_text(document, TITLE_SELECTOR) {
            Some(title) => shop_name_from_title(title.as_str()),
            None => None,
        }
    }

    /// The product name that the title of the page holds.
    pub fn fallback_parse_product_name(&self, document: &Html) -> (name: Option<String>)
        ensures
            name.deep_view() == (match page_title(*document) {
                Some(title) => product_name_in_title(title),
                None => None,
            }),
            name matches Some(n) ==> n@.len() > 0,
    {
        match select_first_text(document, TITLE_SELECTOR) {
            Some(title) => product_name_from_title(title.as_str()),
            None => None,
        }
    }
}


} // verus!
