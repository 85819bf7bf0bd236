//! Where the application keeps its data.

use vstd::prelude::*;

verus! {

/// The name of the application's data directory.
pub const DATA_DIR_NAME: &'static str = "BOOTH_Organizer";

/// The file name of the catalog database.
pub const DATABASE_FILENAME: &'static str = "booth_organizer.db";

} // verus!
