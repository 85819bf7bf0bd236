//! The CSS selectors by which each field of a listing page is looked up,
//! in the order in which they are tried.

use vstd::prelude::*;

verus! {

/// The selector of the page title.
pub const TITLE_SELECTOR: &'static str = "title";

/// The word by which a selector is known to name a `meta` element.
pub const META_MARK: &'static str = "meta";

/// The attribute that holds what a `meta` element says.
pub const CONTENT_ATTRIBUTE: &'static str = "content";

/// The attribute that holds the address of an image.
pub const SOURCE_ATTRIBUTE: &'static str = "src";

/// The attribute that holds the address of an image that is loaded late.
pub const LAZY_SOURCE_ATTRIBUTE: &'static str = "data-src";

/// The selectors for the shop's name.
pub const SHOP_NAME_SELECTORS: [&'static str; 6] = [
    ".shop-name a", ".shop-name", "[data-tracking='click_shop_name']",
    ".user-name", ".shop-title a", ".shop-title",
];

/// The selectors for the product's name; the bare heading comes last.
pub const PRODUCT_NAME_SELECTORS: [&'static str; 7] = [
    "h2.item-name", "h1.item-name", "h1.product-name",
    ".item-name", ".product-name", "[data-tracking='click_item_name']",
    "h1",
];

/// The selectors for the price.
pub const PRICE_SELECTORS: [&'static str; 8] = [
    ".summary .price", ".variation-price", ".page-wrap .price",
    ".price-value", ".item-price", ".product-price .price",
    ".price", "[data-tracking*='price']",
];

/// The selectors for the description. Those that name a `meta` element are read by
/// its `content` attribute.
pub const DESCRIPTION_SELECTORS: [&'static str; 5] = [
    ".item-description", ".product-description", ".description",
    "meta[name='description']", "meta[property='og:description']",
];

/// The selectors for the representative image. Those that name a `meta` element
/// are read by its `content` attribute, the others by `src` or `data-src`.
pub const THUMBNAIL_SELECTORS: [&'static str; 6] = [
    "img.thumb", "meta[property='og:image']", ".item-image img",
    ".product-image img", ".main-image img", "img.item-thumbnail",
];

/// The selectors for the tags: the page's tag list and what lies in it come first,
/// then the same list by class, then the general forms.
pub const TAG_SELECTORS: [&'static str; 16] = [
    "#js-item-tag-list", "#js-item-tag-list div",
    "#js-item-tag-list a", "#js-item-tag-list .absolute",
    "#js-item-tag-list .typography-12", "#js-item-tag-list .text-white",
    "#js-item-tag-list .font-bold", "#js-item-tag-list div.absolute.box-border",
    "#js-item-tag-list div.typography-12", "#js-item-tag-list div[style*='text-shadow']",
    ".js-item-tag-list", ".js-item-tag-list div",
    ".js-item-tag-list a", ".tags .tag",
    ".tags a", ".tags div",
];

} // verus!
