//! The structured endpoint: where it is, and what its answer says of a
//! listing.

use crate::config::booth::JSON_SUFFIX;
use crate::errors::{BoothClientError, ClientFailure};
use crate::price::{is_free_price, parse_price_from_string, price_from_text, price_is_free};
use crate::product::{copy_text, BoothProductInfo, ProductRecord};
use crate::text::{
    concat_chars, ends_with_chars, from_chars, to_chars, trim_end_char, trim_end_char_chars,
};
use crate::url_validator::{parsed_url, UrlParts};
use vstd::prelude::*;

verus! {

/// A tag as the endpoint lists it.
#[derive(Debug, Clone)]
pub struct BoothJsonTag {
    pub name: String,
}

/// The shop as the endpoint describes it.
#[derive(Debug, Clone)]
pub struct BoothJsonShop {
    pub name: String,
}

/// An image of the listing in two sizes.
#[derive(Debug, Clone)]
pub struct BoothJsonImage {
    pub original: Option<String>,
    pub resized: Option<String>,
}

/// What the endpoint says of a listing, as far as the record needs it.
#[derive(Debug, Clone)]
pub struct BoothJsonResponse {
    pub id: i64,
    pub name: String,
    /// The price as the marketplace writes it, such as `¥ 1,200`.
    pub price: String,
    pub description: Option<String>,
    pub tags: Vec<BoothJsonTag>,
    pub images: Vec<BoothJsonImage>,
    pub shop: BoothJsonShop,
}

/// An image as mathematical values.
pub struct ImageView {
    pub original: Option<Seq<char>>,
    pub resized: Option<Seq<char>>,
}

/// The endpoint's answer as a mathematical value.
pub struct JsonListing {
    pub id: i64,
    pub name: Seq<char>,
    pub price: Seq<char>,
    pub description: Option<Seq<char>>,
    pub tags: Seq<Seq<char>>,
    pub images: Seq<ImageView>,
    pub shop_name: Seq<char>,
}

impl View for BoothJsonImage {
    type V = ImageView;

    open spec fn view(&self) -> ImageView {
        ImageView { original: self.original.deep_view(), resized: self.resized.deep_view() }
    }
}

impl View for BoothJsonResponse {
    type V = JsonListing;

    open spec fn view(&self) -> JsonListing {
        JsonListing {
            id: self.id,
            name: self.name@,
            price: self.price@,
            description: self.description.deep_view(),
            tags: self.tags@.map_values(|tag: BoothJsonTag| tag.name@),
            images: self.images@.map_values(|image: BoothJsonImage| image@),
            shop_name: self.shop.name@,
        }
    }
}

/// The address of the structured endpoint for a listing's address: the
/// address itself where it ends in `.json` already, else the address
/// without the slashes at its end, with `.json` added.
pub open spec fn json_endpoint_of(url: Seq<char>) -> Seq<char> {
    if JSON_SUFFIX@.is_suffix_of(url) {
        url
    } else {
        trim_end_char(url, '/') + JSON_SUFFIX@
    }
}

/// The image that stands for the listing: of the first image, the resized
/// form, or the original where there is no resized form.
pub open spec fn thumbnail_of(images: Seq<ImageView>) -> Option<Seq<char>> {
    if images.len() == 0 {
        None
    } else {
        match images[0].resized {
            Some(address) => Some(address),
            None => images[0].original,
        }
    }
}

/// The record that the endpoint's answer gives for the address `url`.
pub open spec fn record_of_listing(listing: JsonListing, url: Seq<char>) -> ProductRecord {
    ProductRecord {
        product_id: Some(listing.id),
        shop_name: listing.shop_name,
        product_name: listing.name,
        price: price_from_text(listing.price),
        description: listing.description,
        thumbnail_url: thumbnail_of(listing.images),
        is_free: price_is_free(price_from_text(listing.price)),
        tags: listing.tags,
        source_url: url,
    }
}

/// The answer names both the shop and the product.
pub open spec fn listing_is_complete(listing: JsonListing) -> bool {
    listing.shop_name.len() > 0 && listing.name.len() > 0
}

/// Where the structured form of the listing at `booth_url` is found. An
/// address that is no URL is refused.
pub fn json_endpoint(booth_url: &str) -> (endpoint: Result<String, BoothClientError>)
    ensures
        match parsed_url(booth_url@) {
            Some(_) => endpoint matches Ok(address) && address@ == json_endpoint_of(booth_url@),
            None => endpoint matches Err(e) && e@ == (ClientFailure::InvalidUrl {
                url: booth_url@,
            }),
        },
{
    if UrlParts::parse(booth_url).is_none() {
        return Err(BoothClientError::InvalidUrl { url: booth_url.to_string() });
    }
    let address = to_chars(booth_url);
    let suffix = to_chars(JSON_SUFFIX);
    if ends_with_chars(&address, &suffix) {
        Ok(booth_url.to_string())
    } else {
        Ok(from_chars(&concat_chars(&trim_end_char_chars(&address, '/'), &suffix)))
    }
}

/// The names of the tags, in the order of the answer.
fn tag_names(tags: &Vec<BoothJsonTag>) -> (names: Vec<String>)
    ensures
        names.deep_view() == tags@.map_values(|tag: BoothJsonTag| tag.name@),
{
    let mut names: Vec<String> = Vec::new();
    let mut i: usize = 0;
    while i < tags.len()
        invariant
            i <= tags.len(),
            names.len() == i,
            forall|k: int| 0 <= k < i ==> (#[trigger] names@[k])@ == tags@[k].name@,
        decreases tags.len() - i,
    {
        names.push(tags[i].name.clone());
        i += 1;
    }
    assert(names.deep_view() =~= tags@.map_values(|tag: BoothJsonTag| tag.name@));
    names
}

/// The address of the image that stands for the listing.
pub fn select_thumbnail(images: &Vec<BoothJsonImage>) -> (address: Option<String>)
    ensures
        address.deep_view() == thumbnail_of(images@.map_values(|image: BoothJsonImage| image@)),
{
    if images.len() == 0 {
        None
    } else {
        match &images[0].resized {
            Some(resized) => Some(resized.clone()),
            None => copy_text(&images[0].original),
        }
    }
}

/// Maps the endpoint's answer for `booth_url` into a record.
///
/// The price text is read leniently: one that is no number leaves the
/// price absent. The tags are taken as they come. An answer that names no
/// shop or no product is refused, for a record always names both.
pub fn product_from_json(response: &BoothJsonResponse, booth_url: &str) -> (record: Result<
    BoothProductInfo,
    BoothClientError,
>)
    ensures
        match record {
            Ok(info) => listing_is_complete(response@) && info@ == record_of_listing(
                response@,
                booth_url@,
            ) && info@.well_formed(),
            Err(e) => !listing_is_complete(response@) && e@ == ClientFailure::ParseError,
        },
{
    if response.shop.name.as_str().is_empty() || response.name.as_str().is_empty() {
        return Err(BoothClientError::ParseError);
    }
    let price = parse_price_from_string(response.price.as_str());
    Ok(
        BoothProductInfo {
            product_id: Some(response.id),
            shop_name: response.shop.name.clone(),
            product_name: response.name.clone(),
            price,
            description: copy_text(&response.description),
            thumbnail_url: select_thumbnail(&response.images),
            is_free: is_free_price(price),
            tags: tag_names(&response.tags),
            booth_url: booth_url.to_string(),
        },
    )
}

} // verus!
