//! Resolving a listing: the structured endpoint first, the HTML page where
//! that fails.
//!
//! The resolver decides and never fetches. Its owner performs the action
//! that the current state asks for and reports what came of it.

use crate::document::{html_document, parse_document};
use crate::errors::{BoothClientError, ClientFailure};
use crate::html_parser::{
    lemma_page_names_not_empty, page_product_name, page_shop_name, selected_description,
    selected_price, selected_tags, selected_thumbnail_url, texts_of_all, DefaultBoothParser,
};
use crate::selectors::TAG_SELECTORS;
use crate::tags::{lemma_collect_tags_sound, tag_is_acceptable};
use crate::json_api::{
    json_endpoint, json_endpoint_of, listing_is_complete, product_from_json, record_of_listing,
    BoothJsonResponse, JsonListing,
};
use crate::price::{is_free_price, price_is_free};
use crate::product::{BoothProductInfo, ProductRecord};
use crate::url_validator::{
    extract_product_id, is_product_page, is_product_page_url, item_id_in_path,
    missing_product_id, parsed_url, UrlParts,
};
use scraper::Html;
use vstd::prelude::*;

verus! {

/// What is reported when a page names no shop.
pub open spec fn missing_shop_name() -> ClientFailure {
    ClientFailure::ElementNotFound { element: "shop name"@ }
}

/// What is reported when a page names no product.
pub open spec fn missing_product_name() -> ClientFailure {
    ClientFailure::ElementNotFound { element: "product name"@ }
}

/// The record that a listing page gives for the address `url` and the
/// product number `product_id`; an error where the page names no shop or
/// no product.
pub open spec fn record_of_page(doc: Html, url: Seq<char>, product_id: i64) -> Result<
    ProductRecord,
    ClientFailure,
> {
    match (page_shop_name(doc), page_product_name(doc)) {
        (None, _) => Err(missing_shop_name()),
        (Some(_), None) => Err(missing_product_name()),
        (Some(shop_name), Some(product_name)) => Ok(
            ProductRecord {
                product_id: Some(product_id),
                shop_name,
                product_name,
                price: selected_price(doc),
                description: selected_description(doc),
                thumbnail_url: selected_thumbnail_url(doc),
                is_free: price_is_free(selected_price(doc)),
                tags: selected_tags(doc),
                source_url: url,
            },
        ),
    }
}

/// The tags are such as a page may give: none twice, none shorter than 2
/// or longer than 50 characters, none an interface label.
pub open spec fn tags_are_clean(tags: Seq<Seq<char>>) -> bool {
    &&& tags.no_duplicates()
    &&& forall|i: int| 0 <= i < tags.len() ==> tag_is_acceptable(#[trigger] tags[i])
}

/// The tags of every page are clean.
pub proof fn lemma_page_tags_are_clean(doc: Html)
    ensures
        tags_are_clean(selected_tags(doc)),
{
    lemma_collect_tags_sound(texts_of_all(doc, TAG_SELECTORS@));
}

/// The product number with which the HTML path starts for the address
/// `url`; an error where the address is no product page of the
/// marketplace, or names a number that is too large.
pub open spec fn fallback_target(url: Seq<char>) -> Result<i64, ClientFailure> {
    match parsed_url(url) {
        None => Err(ClientFailure::InvalidUrl { url }),
        Some(parts) => if !is_product_page(parts) {
            Err(ClientFailure::InvalidUrl { url })
        } else {
            match item_id_in_path(parts.path) {
                Some(number) => Ok(number),
                None => Err(missing_product_id()),
            }
        },
    }
}

/// Checks the address before its page is fetched, and reads the product
/// number out of it.
pub fn begin_html_fallback(booth_url: &str) -> (target: Result<i64, BoothClientError>)
    ensures
        match fallback_target(booth_url@) {
            Ok(number) => target == Ok::<i64, BoothClientError>(number),
            Err(failure) => target matches Err(e) && e@ == failure,
        },
{
    match UrlParts::parse(booth_url) {
        None => Err(BoothClientError::InvalidUrl { url: booth_url.to_string() }),
        Some(parts) => {
            if !is_product_page_url(&parts) {
                Err(BoothClientError::InvalidUrl { url: booth_url.to_string() })
            } else {
                extract_product_id(&parts)
            }
        },
    }
}

/// Reads a listing's record off its parsed page. The shop's and the
/// product's name are required; the other fields are left out where the
/// page does not show them.
pub fn product_from_document(document: &Html, booth_url: &str, product_id: i64) -> (record: Result<
    BoothProductInfo,
    BoothClientError,
>)
    ensures
        match record_of_page(*document, booth_url@, product_id) {
            Ok(expected) => record matches Ok(info) && info@ == expected && info@.well_formed()
                && tags_are_clean(info@.tags),
            Err(failure) => record matches Err(e) && e@ == failure,
        },
{
    let parser = DefaultBoothParser;
    let shop_name = match parser.parse_shop_name(document) {
        Some(name) => name,
        None => match parser.fallback_parse_shop_name(document) {
            Some(name) => name,
            None => {
                return Err(
                    BoothClientError::ElementNotFound { element: "shop name".to_string() },
                );
            },
        },
    };
    let product_name = match parser.parse_product_name(document) {
        Some(name) => name,
        None => match parser.fallback_parse_product_name(document) {
            Some(name) => name,
            None => {
                return Err(
                    BoothClientError::ElementNotFound { element: "product name".to_string() },
                );
            },
        },
    };
    let price = parser.parse_price(document);
    let description = parser.parse_description(document);
    let thumbnail_url = parser.parse_thumbnail_url(document);
    let tags = parser.parse_tags(document);
    Ok(
        BoothProductInfo {
            product_id: Some(product_id),
            shop_name,
            product_name,
            price,
            description,
            thumbnail_url,
            is_free: is_free_price(price),
            tags,
            booth_url: booth_url.to_string(),
        },
    )
}

/// Reads a listing's record off the source of its page.
pub fn product_from_html(html: &str, booth_url: &str, product_id: i64) -> (record: Result<
    BoothProductInfo,
    BoothClientError,
>)
    ensures
        match record_of_page(html_document(html@), booth_url@, product_id) {
            Ok(expected) => record matches Ok(info) && info@ == expected && info@.well_formed()
                && tags_are_clean(info@.tags),
            Err(failure) => record matches Err(e) && e@ == failure,
        },
{
    let document = parse_document(html);
    product_from_document(&document, booth_url, product_id)
}

/// Where a resolution stands.
#[derive(Debug)]
pub enum ResolverState {
    /// Nothing has been done yet.
    Start,
    /// The structured endpoint at `endpoint` is being asked.
    TryStructured { endpoint: String },
    /// The structured endpoint has failed; the page is being fetched.
    TryHtmlFallback { product_id: i64 },
    /// The listing is resolved.
    Success(BoothProductInfo),
    /// The listing cannot be resolved.
    Failed(BoothClientError),
}

/// What the owner of a resolver reports to it.
#[derive(Debug)]
pub enum ResolverEvent {
    /// The resolution is to begin.
    Begin,
    /// The structured endpoint answered, and the answer had the expected
    /// shape.
    StructuredAnswer(BoothJsonResponse),
    /// The structured endpoint could not be fetched, or its answer did not
    /// have the expected shape.
    StructuredFailure,
    /// The page was fetched; this is its source.
    Page(String),
    /// The page could not be fetched.
    PageFailure(BoothClientError),
}

/// What the owner of a resolver does for it.
#[derive(Debug)]
pub enum ResolverAction {
    /// Report `Begin`.
    Begin,
    /// Fetch the text at this address and decode it as the structured
    /// endpoint's answer.
    FetchStructured(String),
    /// Fetch the text at this address: it is the listing's page.
    FetchPage(String),
    /// Hand this on: the resolution is over.
    Finish(Result<BoothProductInfo, BoothClientError>),
}

/// A state as a mathematical value.
pub enum StateView {
    Start,
    TryStructured { endpoint: Seq<char> },
    TryHtmlFallback { product_id: i64 },
    Success(ProductRecord),
    Failed(ClientFailure),
}

/// An event as a mathematical value.
pub enum EventView {
    Begin,
    StructuredAnswer(JsonListing),
    StructuredFailure,
    Page(Seq<char>),
    PageFailure(ClientFailure),
}

/// An action as a mathematical value.
pub enum ActionView {
    Begin,
    FetchStructured(Seq<char>),
    FetchPage(Seq<char>),
    Finish(Result<ProductRecord, ClientFailure>),
}

impl View for ResolverState {
    type V = StateView;

    open spec fn view(&self) -> StateView {
        match self {
            ResolverState::Start => StateView::Start,
            ResolverState::TryStructured { endpoint } => StateView::TryStructured {
                endpoint: endpoint@,
            },
            ResolverState::TryHtmlFallback { product_id } => StateView::TryHtmlFallback {
                product_id: *product_id,
            },
            ResolverState::Success(info) => StateView::Success(info@),
            ResolverState::Failed(error) => StateView::Failed(error@),
        }
    }
}

impl View for ResolverEvent {
    type V = EventView;

    open spec fn view(&self) -> EventView {
        match self {
            ResolverEvent::Begin => EventView::Begin,
            ResolverEvent::StructuredAnswer(answer) => EventView::StructuredAnswer(answer@),
            ResolverEvent::StructuredFailure => EventView::StructuredFailure,
            ResolverEvent::Page(source) => EventView::Page(source@),
            ResolverEvent::PageFailure(error) => EventView::PageFailure(error@),
        }
    }
}

impl View for ResolverAction {
    type V = ActionView;

    open spec fn view(&self) -> ActionView {
        match self {
            ResolverAction::Begin => ActionView::Begin,
            ResolverAction::FetchStructured(address) => ActionView::FetchStructured(address@),
            ResolverAction::FetchPage(address) => ActionView::FetchPage(address@),
            ResolverAction::Finish(Ok(info)) => ActionView::Finish(Ok(info@)),
            ResolverAction::Finish(Err(error)) => ActionView::Finish(Err(error@)),
        }
    }
}

/// The state in which the HTML path starts for the address `url`.
pub open spec fn fallback_entry(url: Seq<char>) -> StateView {
    match fallback_target(url) {
        Ok(product_id) => StateView::TryHtmlFallback { product_id },
        Err(failure) => StateView::Failed(failure),
    }
}

/// The state that follows `state` on `event`, for the address `url`.
///
/// From the start the structured endpoint is tried, where the address is a
/// URL at all. Its answer ends the resolution where it names shop and
/// product; any failure there leads to the HTML path, which begins by
/// checking the address. The page then decides. An event that the state
/// does not wait for changes nothing.
pub open spec fn next_state(url: Seq<char>, state: StateView, event: EventView) -> StateView {
    match (state, event) {
        (StateView::Start, EventView::Begin) => match parsed_url(url) {
            Some(_) => StateView::TryStructured { endpoint: json_endpoint_of(url) },
            None => fallback_entry(url),
        },
        (StateView::TryStructured { .. }, EventView::StructuredAnswer(listing)) => if listing_is_complete(
            listing,
        ) {
            StateView::Success(record_of_listing(listing, url))
        } else {
            fallback_entry(url)
        },
        (StateView::TryStructured { .. }, EventView::StructuredFailure) => fallback_entry(url),
        (StateView::TryHtmlFallback { product_id }, EventView::Page(source)) => match record_of_page(
            html_document(source),
            url,
            product_id,
        ) {
            Ok(record) => StateView::Success(record),
            Err(failure) => StateView::Failed(failure),
        },
        (StateView::TryHtmlFallback { .. }, EventView::PageFailure(failure)) => StateView::Failed(
            failure,
        ),
        _ => state,
    }
}

/// What a state asks its owner to do.
pub open spec fn action_of(url: Seq<char>, state: StateView) -> ActionView {
    match state {
        StateView::Start => ActionView::Begin,
        StateView::TryStructured { endpoint } => ActionView::FetchStructured(endpoint),
        StateView::TryHtmlFallback { .. } => ActionView::FetchPage(url),
        StateView::Success(record) => ActionView::Finish(Ok(record)),
        StateView::Failed(failure) => ActionView::Finish(Err(failure)),
    }
}

/// A state is sound when the record that it may hold is well formed.
pub open spec fn state_is_sound(state: StateView) -> bool {
    match state {
        StateView::Success(record) => record.well_formed(),
        _ => true,
    }
}

/// No step leads out of the sound states: a resolution that ends in
/// success holds a record that names shop and product, and whose `is_free`
/// says what its price says.
pub proof fn lemma_steps_keep_states_sound(url: Seq<char>, state: StateView, event: EventView)
    requires
        state_is_sound(state),
    ensures
        state_is_sound(next_state(url, state, event)),
{
    match (state, event) {
        (StateView::TryHtmlFallback { product_id }, EventView::Page(source)) => {
            lemma_page_names_not_empty(html_document(source));
        },
        _ => {},
    }
}

/// A resolution succeeds only through the structured endpoint's answer or
/// through the page.
pub proof fn lemma_success_has_a_source(url: Seq<char>, state: StateView, event: EventView)
    requires
        !(state is Success),
        next_state(url, state, event) is Success,
    ensures
        (state is TryStructured && event is StructuredAnswer) || (state is TryHtmlFallback
            && event is Page),
{
}

/// The resolution of one address.
#[derive(Debug)]
pub struct ProductInfoResolver {
    /// The address as it was given.
    pub booth_url: String,
    pub state: ResolverState,
}

impl ProductInfoResolver {
    /// A resolution of `booth_url` that has not begun.
    pub fn new(booth_url: &str) -> (resolver: ProductInfoResolver)
        ensures
            resolver.booth_url@ == booth_url@,
            resolver.state@ == StateView::Start,
    {
        ProductInfoResolver { booth_url: booth_url.to_string(), state: ResolverState::Start }
    }

    fn enter_fallback(booth_url: &str) -> (state: ResolverState)
        ensures
            state@ == fallback_entry(booth_url@),
    {
        match begin_html_fallback(booth_url) {
            Ok(product_id) => ResolverState::TryHtmlFallback { product_id },
            Err(error) => ResolverState::Failed(error),
        }
    }

    /// Moves to the state that follows on `event`.
    pub fn step(&mut self, event: ResolverEvent)
        ensures
            final(self).booth_url == old(self).booth_url,
            final(self).state@ == next_state(old(self).booth_url@, old(self).state@, event@),
            state_is_sound(old(self).state@) ==> state_is_sound(final(self).state@),
    {
        let url = self.booth_url.as_str();
        let next = match (&self.state, event) {
            (ResolverState::Start, ResolverEvent::Begin) => match json_endpoint(url) {
                Ok(endpoint) => Some(ResolverState::TryStructured { endpoint }),
                Err(_) => Some(Self::enter_fallback(url)),
            },
            (ResolverState::TryStructured { .. }, ResolverEvent::StructuredAnswer(answer)) => {
                match product_from_json(&answer, url) {
                    Ok(info) => Some(ResolverState::Success(info)),
                    Err(_) => Some(Self::enter_fallback(url)),
                }
            },
            (ResolverState::TryStructured { .. }, ResolverEvent::StructuredFailure) => Some(
                Self::enter_fallback(url),
            ),
            (ResolverState::TryHtmlFallback { product_id }, ResolverEvent::Page(source)) => {
                match product_from_html(source.as_str(), url, *product_id) {
                    Ok(info) => Some(ResolverState::Success(info)),
                    Err(error) => Some(ResolverState::Failed(error)),
                }
            },
            (ResolverState::TryHtmlFallback { .. }, ResolverEvent::PageFailure(error)) => Some(
                ResolverState::Failed(error),
            ),
            _ => None,
        };
        match next {
            Some(state) => {
                self.state = state;
            },
            None => {},
        }
    }

    /// What the owner has to do now.
    pub fn action(&self) -> (action: ResolverAction)
        ensures
            action@ == action_of(self.booth_url@, self.state@),
    {
        match &self.state {
            ResolverState::Start => ResolverAction::Begin,
            ResolverState::TryStructured { endpoint } => ResolverAction::FetchStructured(
                endpoint.clone(),
            ),
            ResolverState::TryHtmlFallback { .. } => ResolverAction::FetchPage(
                self.booth_url.clone(),
            ),
            ResolverState::Success(info) => ResolverAction::Finish(Ok(info.copy())),
            ResolverState::Failed(error) => ResolverAction::Finish(Err(error.copy())),
        }
    }

    /// Whether the resolution is over.
    pub fn is_finished(&self) -> (finished: bool)
        ensures
            finished == (self.state@ is Success || self.state@ is Failed),
    {
        match &self.state {
            ResolverState::Success(_) => true,
            ResolverState::Failed(_) => true,
            _ => false,
        }
    }
}

} // verus!
