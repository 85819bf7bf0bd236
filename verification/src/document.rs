//! The parsed HTML page. The tree belongs to the `scraper` crate; the
//! library reads it through the three functions below and knows what they
//! return only by name.

use vstd::prelude::*;

verus! {

#[verifier::external_type_specification]
#[verifier::external_body]
pub struct ExHtml(scraper::Html);

/// The tree that `scraper::Html::parse_document` builds from a source text.
pub uninterp spec fn html_document(source: Seq<char>) -> scraper::Html;

/// For each element of `doc` that the CSS selector group `selector` matches,
/// in the order in which `scraper::Html::select` yields them, the texts of
/// its descendant text nodes run together. Empty where `selector` does not
/// parse.
pub uninterp spec fn element_texts(doc: scraper::Html, selector: Seq<char>) -> Seq<Seq<char>>;

/// For each element of `doc` that `selector` matches, in the same order,
/// the value of its attribute `name`, if it has one. Empty where `selector`
/// does not parse.
pub uninterp spec fn element_attributes(
    doc: scraper::Html,
    selector: Seq<char>,
    name: Seq<char>,
) -> Seq<Option<Seq<char>>>;

/// Calls `scraper::Html::parse_document`, which accepts every text and
/// builds a tree as the HTML standard's error recovery prescribes.
#[verifier::external_body]
pub(crate) fn parse_document(source: &str) -> (doc: scraper::Html)
    ensures
        doc == html_document(source@),
{
    scraper::Html::parse_document(source)
}

/// Calls `scraper::Selector::parse`, `scraper::Html::select` and, on each
/// element found, `scraper::ElementRef::text`, whose pieces it joins.
#[verifier::external_body]
pub(crate) fn select_texts(doc: &scraper::Html, selector: &str) -> (texts: Vec<String>)
    ensures
        texts.deep_view() == element_texts(*doc, selector@),
{
    match scraper::Selector::parse(selector) {
        Ok(parsed) => doc.select(&parsed).map(|element| element.text().collect::<String>()).collect(),
        Err(_) => Vec::new(),
    }
}

/// Calls `scraper::Selector::parse`, `scraper::Html::select` and, on each
/// element found, `scraper::node::Element::attr`.
#[verifier::external_body]
pub(crate) fn select_attributes(doc: &scraper::Html, selector: &str, name: &str) -> (values: Vec<
    Option<String>,
>)
    ensures
        values.deep_view() == element_attributes(*doc, selector@, name@),
{
    match scraper::Selector::parse(selector) {
        Ok(parsed) => doc.select(&parsed).map(
            |element| element.value().attr(name).map(|value| value.to_string()),
        ).collect(),
        Err(_) => Vec::new(),
    }
}

/// The first of the texts that `selector` finds in `doc`.
pub open spec fn first_text(doc: scraper::Html, selector: Seq<char>) -> Option<Seq<char>> {
    let texts = element_texts(doc, selector);
    if texts.len() > 0 {
        Some(texts[0])
    } else {
        None
    }
}

/// The attribute `name` of the first element that `selector` finds in
/// `doc`: `None` where it finds no element, `Some(None)` where the element
/// lacks the attribute.
pub open spec fn first_attribute(doc: scraper::Html, selector: Seq<char>, name: Seq<char>) -> Option<
    Option<Seq<char>>,
> {
    let values = element_attributes(doc, selector, name);
    if values.len() > 0 {
        Some(values[0])
    } else {
        None
    }
}

/// The text of the first element that `selector` matches in `doc`.
pub fn select_first_text(doc: &scraper::Html, selector: &str) -> (text: Option<String>)
    ensures
        text.deep_view() == first_text(*doc, selector@),
{
    let mut texts = select_texts(doc, selector);
    if texts.len() > 0 {
        let ghost all = texts.deep_view();
        let first = texts.swap_remove(0);
        assert(first@ == all[0]);
        Some(first)
    } else {
        None
    }
}

/// The attribute `name` of the first element that `selector` matches in
/// `doc`.
pub fn select_first_attribute(doc: &scraper::Html, selector: &str, name: &str) -> (value: Option<
    Option<String>,
>)
    ensures
        value.deep_view() == first_attribute(*doc, selector@, name@),
{
    let mut values = select_attributes(doc, selector, name);
    if values.len() > 0 {
        let ghost all = values.deep_view();
        let first = values.swap_remove(0);
        assert(first.deep_view() == all[0]);
        Some(first)
    } else {
        None
    }
}

} // verus!
