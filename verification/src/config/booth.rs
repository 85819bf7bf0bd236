//! The marketplace's addresses.

use vstd::prelude::*;

verus! {

/// The marketplace's own domain.
pub const MAIN_DOMAIN: &'static str = "booth.pm";

/// What the host of every shop of the marketplace ends with.
pub const SUBDOMAIN_SUFFIX: &'static str = ".booth.pm";

/// The folder name for a shop that is not known.
pub const DEFAULT_SHOP_NAME: &'static str = "Unknown_Shop";

/// The path segment that stands before a product's number.
pub const ITEMS_SEGMENT: &'static str = "items";

/// What the address of the structured endpoint ends with.
pub const JSON_SUFFIX: &'static str = ".json";

} // verus!
