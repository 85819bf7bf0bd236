//! The normalised record of a marketplace listing.

use crate::price::price_is_free;
use vstd::prelude::*;

verus! {

/// What is known of a listing once it has been resolved.
#[derive(Debug, Clone)]
pub struct BoothProductInfo {
    /// The number that the marketplace gave the listing.
    pub product_id: Option<i64>,
    pub shop_name: String,
    pub product_name: String,
    /// In yen; absent or zero for a free listing.
    pub price: Option<i64>,
    pub description: Option<String>,
    /// The absolute address of a representative image.
    pub thumbnail_url: Option<String>,
    /// Whether the listing costs nothing: follows from `price`.
    pub is_free: bool,
    /// In the order in which the source gave them.
    pub tags: Vec<String>,
    /// The address that was asked for, as it was given.
    pub booth_url: String,
}

/// A listing record as a mathematical value.
pub struct ProductRecord {
    pub product_id: Option<i64>,
    pub shop_name: Seq<char>,
    pub product_name: Seq<char>,
    pub price: Option<i64>,
    pub description: Option<Seq<char>>,
    pub thumbnail_url: Option<Seq<char>>,
    pub is_free: bool,
    pub tags: Seq<Seq<char>>,
    pub source_url: Seq<char>,
}

impl View for BoothProductInfo {
    type V = ProductRecord;

    open spec fn view(&self) -> ProductRecord {
        ProductRecord {
            product_id: self.product_id,
            shop_name: self.shop_name@,
            product_name: self.product_name@,
            price: self.price,
            description: self.description.deep_view(),
            thumbnail_url: self.thumbnail_url.deep_view(),
            is_free: self.is_free,
            tags: self.tags.deep_view(),
            source_url: self.booth_url@,
        }
    }
}

impl ProductRecord {
    /// The record is one that a resolution may return: it names the shop
    /// and the product, and `is_free` says what the price says.
    pub open spec fn well_formed(self) -> bool {
        &&& self.shop_name.len() > 0
        &&& self.product_name.len() > 0
        &&& self.is_free == price_is_free(self.price)
    }
}

/// A copy of `text`.
pub fn copy_text(text: &Option<String>) -> (copy: Option<String>)
    ensures
        copy.deep_view() == text.deep_view(),
{
    match text {
        Some(s) => Some(s.clone()),
        None => None,
    }
}

/// A copy of `texts`.
pub fn copy_texts(texts: &Vec<String>) -> (copy: Vec<String>)
    ensures
        copy.deep_view() == texts.deep_view(),
{
    let mut copy: Vec<String> = Vec::new();
    let mut i: usize = 0;
    while i < texts.len()
        invariant
            i <= texts.len(),
            copy.len() == i,
            forall|k: int| 0 <= k < i ==> (#[trigger] copy@[k])@ == texts@[k]@,
        decreases texts.len() - i,
    {
        copy.push(texts[i].clone());
        i += 1;
    }
    assert(copy.deep_view() =~= texts.deep_view());
    copy
}

impl BoothProductInfo {
    /// A copy of the record.
    pub fn copy(&self) -> (copy: BoothProductInfo)
        ensures
            copy@ == self@,
    {
        BoothProductInfo {
            product_id: self.product_id,
            shop_name: self.shop_name.clone(),
            product_name: self.product_name.clone(),
            price: self.price,
            description: copy_text(&self.description),
            thumbnail_url: copy_text(&self.thumbnail_url),
            is_free: self.is_free,
            tags: copy_texts(&self.tags),
            booth_url: self.booth_url.clone(),
        }
    }

    /// The part of the record that the interface is shown.
    pub fn to_api_type(&self) -> (shown: crate::api_types::BoothProductInfo)
        ensures
            shown.product_id == self.product_id,
            shown.shop_name@ == self.shop_name@,
            shown.product_name@ == self.product_name@,
            shown.price == self.price,
            shown.thumbnail_url.deep_view() == self.thumbnail_url.deep_view(),
            shown.tags.deep_view() == self.tags.deep_view(),
    {
        crate::api_types::BoothProductInfo {
            product_id: self.product_id,
            shop_name: self.shop_name.clone(),
            product_name: self.product_name.clone(),
            price: self.price,
            thumbnail_url: copy_text(&self.thumbnail_url),
            tags: copy_texts(&self.tags),
        }
    }
}

} // verus!
