//! Limits on tags.

use vstd::prelude::*;

verus! {

/// The greatest length of a tag name that a user may enter, in bytes.
pub const MAX_TAG_LENGTH: usize = 50;

/// The least number of characters of a tag taken from a listing page.
pub const MIN_SCRAPED_TAG_CHARS: usize = 2;

/// The greatest number of characters of a tag taken from a listing page.
pub const MAX_SCRAPED_TAG_CHARS: usize = 50;

/// The colour of tags in the interface.
pub const DEFAULT_TAG_COLOR: &'static str = "#007ACC";

/// The colour that a new tag gets in the catalog.
pub const ALTERNATIVE_DEFAULT_COLOR: &'static str = "#3498db";

/// How often a new tag has been used.
pub const INITIAL_USAGE_COUNT: i64 = 0;

} // verus!
