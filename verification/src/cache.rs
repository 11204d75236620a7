//! The names under which the cache files its copies, and how long they
//! live. The cache is an accelerator for reads: a copy may be stale for as
//! long as it lives, and no decision that moves money is taken from one.

use vstd::prelude::*;
use crate::decimal::Decimal;
use crate::ids::{hyphenated, uuid_to_string};

pub mod cache_ttl;

verus! {

/// The statistics of a category.
#[derive(Clone, Debug, PartialEq, Eq)]
pub struct CategoryStats {
    pub total_listings: i64,
    pub avg_price: Decimal,
    pub min_price: Decimal,
    pub max_price: Decimal,
    pub median_price: Decimal,
    pub top_brands: Vec<(String, i64)>,
}

impl CategoryStats {
    /// How long the statistics of a category may be served from the cache,
    /// in seconds.
    pub fn cache_duration() -> (seconds: u64)
        ensures
            seconds == cache_ttl::CATEGORY_STATS,
    {
        cache_ttl::CATEGORY_STATS
    }
}

/// A prefix and a name, put together.
fn prefixed(prefix: &str, name: &str) -> (key: String)
    ensures
        key@ == prefix@ + name@,
{
    let mut key = String::new();
    key.push_str(prefix);
    key.push_str(name);
    assert(key@ =~= prefix@ + name@);
    key
}

/// The key of a listing.
pub fn listing_key(listing_id: u128) -> (key: String)
    ensures
        key@ == "listing:"@ + hyphenated(listing_id),
{
    let id = uuid_to_string(listing_id);
    prefixed("listing:", id.as_str())
}

/// The key of the count of views of a listing.
pub fn views_key(listing_id: u128) -> (key: String)
    ensures
        key@ == "views:"@ + hyphenated(listing_id),
{
    let id = uuid_to_string(listing_id);
    prefixed("views:", id.as_str())
}

/// The key of the profile of a user.
pub fn profile_key(user_id: &str) -> (key: String)
    ensures
        key@ == "profile:"@ + user_id@,
{
    prefixed("profile:", user_id)
}

/// The key of the statistics of a category.
pub fn category_stats_key(category: &str) -> (key: String)
    ensures
        key@ == "category_stats:"@ + category@,
{
    prefixed("category_stats:", category)
}

/// The key of the results of a search, which is known by the hash of its
/// query.
pub fn search_key(query_hash: &str) -> (key: String)
    ensures
        key@ == "search:"@ + query_hash@,
{
    prefixed("search:", query_hash)
}

} // verus!
