//! How long a cached copy may be served, in seconds.

use vstd::prelude::*;

verus! {

/// A listing: five minutes.
pub const LISTING: u64 = 300;

/// A profile: ten minutes.
pub const PROFILE: u64 = 600;

/// The results of a search: three minutes.
pub const SEARCH_RESULTS: u64 = 180;

/// The statistics of a category: five minutes.
pub const CATEGORY_STATS: u64 = 300;

/// The count of views of a listing: one hour.
pub const VIEW_COUNT: u64 = 3600;

} // verus!
