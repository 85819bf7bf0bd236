//! Limits on file and folder names.

use vstd::prelude::*;

verus! {

/// The greatest length of a folder name, in bytes.
pub const MAX_FILENAME_LENGTH: usize = 200;

/// The folder name that stands in for an empty one.
pub const UNNAMED: &'static str = "unnamed";

} // verus!
