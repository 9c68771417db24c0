//! Which rows are the library.

use vstd::prelude::*;

verus! {

/// Current versions only, as a clause to append to a condition.
pub const CURRENT_ONLY: &'static str = " AND assets.is_current";

/// Current versions, and nothing that is paperwork attached to something else.
pub const LIBRARY_ROWS: &'static str = " AND assets.is_current AND assets.attached_to IS NULL";

} // verus!
