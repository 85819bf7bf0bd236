//! The marketplace client: the state that all requests share, and the
//! reading of pages and addresses.
//!
//! The client holds no connection. Whoever owns it sends the requests, and
//! asks the client how long to wait before each, what to make of each
//! answer, and what a fetched page says.

use crate::denylist::is_excluded;
use crate::errors::BoothClientError;
use crate::html_parser::{
    page_product_name, page_shop_name, selected_description, selected_price, selected_tags,
    selected_thumbnail_url, DefaultBoothParser,
};
use crate::price::price_from_text;
use crate::rate_limiter::{RateLimiter, DEFAULT_RATE_LIMIT_MS};
use crate::resolver::{missing_product_name, missing_shop_name};
use crate::url_validator::{
    host_text, is_marketplace_host, item_id_in_path, missing_product_id, UrlParts,
};
use scraper::Html;
use vstd::prelude::*;

verus! {

/// The time that a request may take, in seconds.
pub const REQUEST_TIMEOUT_SECS: u64 = 30;

/// The browser that the client says it is.
pub const USER_AGENT: &'static str =
    "Mozilla/5.0 (Windows NT 10.0; Win64; x64) AppleWebKit/537.36 (KHTML, like Gecko) Chrome/91.0.4472.124 Safari/537.36";

/// The client of the marketplace.
#[derive(Debug)]
pub struct BoothClient {
    /// When the last request went out, for all who use this client.
    pub rate_limiter: RateLimiter,
}

impl Default for BoothClient {
    fn default() -> (client: BoothClient)
        ensures
            client.rate_limiter.last_request_ms is None,
            client.rate_limiter.delay_ms == DEFAULT_RATE_LIMIT_MS,
    {
        BoothClient::new()
    }
}

impl BoothClient {
    /// A client that has sent nothing yet and keeps one second between its
    /// requests.
    pub fn new() -> (client: BoothClient)
        ensures
            client.rate_limiter.last_request_ms is None,
            client.rate_limiter.delay_ms == DEFAULT_RATE_LIMIT_MS,
    {
        BoothClient { rate_limiter: RateLimiter::new(DEFAULT_RATE_LIMIT_MS) }
    }

    /// How long to wait before a request that would go out at `now_ms`.
    pub fn wait_if_needed(&self, now_ms: u64) -> (wait: u64)
        ensures
            wait == self.rate_limiter.wait_at(now_ms),
    {
        self.rate_limiter.wait_time(now_ms)
    }

    /// Notes that a request goes out at `now_ms`.
    pub fn request_sent(&mut self, now_ms: u64)
        ensures
            final(self).rate_limiter.last_request_ms == Some(now_ms),
            final(self).rate_limiter.delay_ms == old(self).rate_limiter.delay_ms,
    {
        self.rate_limiter.record_request(now_ms);
    }

    /// Whether the address belongs to the marketplace.
    pub fn is_valid_booth_url(&self, url: &UrlParts) -> (valid: bool)
        ensures
            valid == is_marketplace_host(host_text(url@)),
    {
        crate::url_validator::is_valid_booth_url(url)
    }

    /// The product number that the address names.
    pub fn extract_product_id(&self, url: &UrlParts) -> (id: Result<i64, BoothClientError>)
        ensures
            match item_id_in_path(url@.path) {
                Some(number) => id == Ok::<i64, BoothClientError>(number),
                None => id matches Err(e) && e@ == missing_product_id(),
            },
    {
        crate::url_validator::extract_product_id(url)
    }

    /// Reads the price text of the structured endpoint.
    pub fn parse_price_from_string(&self, price_str: &str) -> (price: Option<i64>)
        ensures
            price == price_from_text(price_str@),
    {
        crate::price::parse_price_from_string(price_str)
    }

    /// The name of the shop on the page: what the selectors find, else
    /// what the title holds; an error where neither gives a name.
    pub fn extract_shop_name(&self, document: &Html) -> (name: Result<String, BoothClientError>)
        ensures
            match page_shop_name(*document) {
                Some(expected) => name matches Ok(n) && n@ == expected && n@.len() > 0,
                None => name matches Err(e) && e@ == missing_shop_name(),
            },
    {
        let parser = DefaultBoothParser;
        match parser.parse_shop_name(document) {
            Some(name) => Ok(name),
            None => match parser.fallback_parse_shop_name(document) {
                Some(name) => Ok(name),
                None => Err(BoothClientError::ElementNotFound { element: "shop name".to_string() }),
            },
        }
    }

    /// The name of the product on the page: what the selectors find, else
    /// what the title holds; an error where neither gives a name.
    pub fn extract_product_name(&self, document: &Html) -> (name: Result<String, BoothClientError>)
        ensures
            match page_product_name(*document) {
                Some(expected) => name matches Ok(n) && n@ == expected && n@.len() > 0,
                None => name matches Err(e) && e@ == missing_product_name(),
            },
    {
        let parser = DefaultBoothParser;
        match parser.parse_product_name(document) {
            Some(name) => Ok(name),
            None => match parser.fallback_parse_product_name(document) {
                Some(name) => Ok(name),
                None => Err(
                    BoothClientError::ElementNotFound { element: "product name".to_string() },
                ),
            },
        }
    }

    /// The price that the page shows.
    pub fn extract_price(&self, document: &Html) -> (price: Option<i64>)
        ensures
            price == selected_price(*document),
    {
        DefaultBoothParser.parse_price(document)
    }

    /// The description that the page shows.
    pub fn extract_description(&self, document: &Html) -> (description: Option<String>)
        ensures
            description.deep_view() == selected_description(*document),
    {
        DefaultBoothParser.parse_description(document)
    }

    /// The address of the image that the page shows.
    pub fn extract_thumbnail_url(&self, document: &Html) -> (url: Option<String>)
        ensures
            url.deep_view() == selected_thumbnail_url(*document),
    {
        DefaultBoothParser.parse_thumbnail_url(document)
    }

    /// The tags that the page shows.
    pub fn extract_tags(&self, document: &Html) -> (tags: Vec<String>)
        ensures
            tags.deep_view() == selected_tags(*document),
            tags.deep_view().no_duplicates(),
            forall|i: int|
                0 <= i < tags.len() ==> 2 <= (#[trigger] tags.deep_view()[i]).len() <= 50
                    && !is_excluded(tags.deep_view()[i]),
    {
        DefaultBoothParser.parse_tags(document)
    }
}

} // verus!
