use marketplace::query::{
    get_listings, Column, Comparison, ListingFilters, ListingQuery, Predicate, SortOrder,
    DEFAULT_LIMIT, MAX_LIMIT,
};

const SELECT: &str = "SELECT l.*, u.username as seller_username, COALESCE(ts.trust_score, 50.0) as seller_trust_score, u.email as seller_profile_image FROM marketplace_listings l LEFT JOIN users u ON l.seller_id = u.auth0_id LEFT JOIN marketplace_trust_scores ts ON l.seller_id = ts.user_id WHERE 1=1";

fn no_filters() -> ListingFilters {
    ListingFilters {
        category: None,
        listing_type: None,
        min_price: None,
        max_price: None,
        seller_id: None,
        status: None,
        is_verified: None,
        search_query: None,
        sort_by: None,
        page: None,
        limit: None,
    }
}

#[test]
fn query_without_filters() {
    let statement = get_listings(&no_filters());
    assert_eq!(
        statement.sql,
        format!("{} ORDER BY l.created_at DESC LIMIT 20 OFFSET 0", SELECT)
    );
    assert!(statement.bindings.is_empty());
}

#[test]
fn query_with_every_filter() {
    let filters = ListingFilters {
        category: Some("food".to_string()),
        listing_type: Some("gift_card".to_string()),
        min_price: Some("5".to_string()),
        max_price: Some("9.5".to_string()),
        seller_id: Some("auth0|me".to_string()),
        status: Some("active".to_string()),
        is_verified: Some(true),
        search_query: Some("pizza".to_string()),
        sort_by: Some("price_asc".to_string()),
        page: Some(3),
        limit: Some(10),
    };
    let statement = get_listings(&filters);
    assert_eq!(
        statement.sql,
        format!(
            "{} AND l.category = $1 AND l.listing_type = $2 AND l.selling_price >= $3 AND l.selling_price <= $4 AND l.seller_id = $5 AND l.status = $6 AND l.is_verified = $7 AND (l.title ILIKE $8 OR l.description ILIKE $9 OR l.brand_name ILIKE $10) ORDER BY l.selling_price ASC LIMIT 10 OFFSET 30",
            SELECT
        )
    );
    assert_eq!(
        statement.bindings,
        vec![
            "food".to_string(),
            "gift_card".to_string(),
            "5".to_string(),
            "9.5".to_string(),
            "auth0|me".to_string(),
            "active".to_string(),
            "true".to_string(),
            "%pizza%".to_string(),
            "%pizza%".to_string(),
            "%pizza%".to_string(),
        ]
    );
}

#[test]
fn values_never_reach_the_statement() {
    let mut first = no_filters();
    first.category = Some("food".to_string());
    first.search_query = Some("x".to_string());
    let mut second = no_filters();
    second.category = Some("'; DROP TABLE marketplace_listings; --".to_string());
    second.search_query = Some("%' OR 1=1".to_string());
    let a = get_listings(&first);
    let b = get_listings(&second);
    assert_eq!(a.sql, b.sql);
    assert_eq!(
        b.bindings,
        vec![
            "'; DROP TABLE marketplace_listings; --".to_string(),
            "%%' OR 1=1%".to_string(),
            "%%' OR 1=1%".to_string(),
            "%%' OR 1=1%".to_string(),
        ]
    );
}

#[test]
fn places_are_numbered_in_order() {
    let mut filters = no_filters();
    filters.search_query = Some("a".to_string());
    filters.is_verified = Some(false);
    filters.max_price = Some("3".to_string());
    let statement = get_listings(&filters);
    assert_eq!(
        statement.sql,
        format!(
            "{} AND l.selling_price <= $1 AND l.is_verified = $2 AND (l.title ILIKE $3 OR l.description ILIKE $4 OR l.brand_name ILIKE $5) ORDER BY l.created_at DESC LIMIT 20 OFFSET 0",
            SELECT
        )
    );
    assert_eq!(
        statement.bindings,
        vec!["3".to_string(), "false".to_string(), "%a%".to_string(), "%a%".to_string(), "%a%".to_string()]
    );
}

#[test]
fn sort_orders() {
    assert_eq!(SortOrder::parse(Some("price_asc")), SortOrder::PriceAscending);
    assert_eq!(SortOrder::parse(Some("price_desc")), SortOrder::PriceDescending);
    assert_eq!(SortOrder::parse(Some("popularity")), SortOrder::Popularity);
    assert_eq!(SortOrder::parse(Some("created_at")), SortOrder::Newest);
    assert_eq!(SortOrder::parse(Some("anything")), SortOrder::Newest);
    assert_eq!(SortOrder::parse(None), SortOrder::Newest);
    assert_eq!(SortOrder::PriceAscending.as_sql(), " ORDER BY l.selling_price ASC");
    assert_eq!(SortOrder::PriceDescending.as_sql(), " ORDER BY l.selling_price DESC");
    assert_eq!(SortOrder::Popularity.as_sql(), " ORDER BY l.view_count DESC");
    assert_eq!(SortOrder::Newest.as_sql(), " ORDER BY l.created_at DESC");
}

#[test]
fn pages_and_limits() {
    let mut filters = no_filters();
    assert_eq!(ListingQuery::from_filters(&filters).limit, DEFAULT_LIMIT);
    filters.limit = Some(500);
    filters.page = Some(2);
    let query = ListingQuery::from_filters(&filters);
    assert_eq!(query.limit, MAX_LIMIT);
    assert_eq!(query.offset, 200);
    filters.limit = Some(100);
    assert_eq!(ListingQuery::from_filters(&filters).limit, 100);
    filters.limit = Some(-5);
    filters.page = Some(i64::MAX);
    let query = ListingQuery::from_filters(&filters);
    assert_eq!(query.limit, -5);
    assert_eq!(query.offset, -5 * (i64::MAX as i128));
    let statement = query.to_statement();
    assert!(statement.sql.ends_with(" LIMIT -5 OFFSET -46116860184273879035"));
    filters.limit = Some(i64::MIN);
    filters.page = Some(i64::MIN);
    let query = ListingQuery::from_filters(&filters);
    assert_eq!(query.offset, (i64::MIN as i128) * (i64::MIN as i128));
}

#[test]
fn typed_clauses() {
    let mut filters = no_filters();
    filters.min_price = Some("1".to_string());
    filters.search_query = Some("q".to_string());
    let query = ListingQuery::from_filters(&filters);
    assert_eq!(
        query.predicates,
        vec![
            Predicate::Compare {
                column: Column::SellingPrice,
                comparison: Comparison::AtLeast,
                value: "1".to_string(),
            },
            Predicate::Search { text: "q".to_string() },
        ]
    );
    assert_eq!(Column::Category.as_sql(), "l.category");
    assert_eq!(Column::IsVerified.as_sql(), "l.is_verified");
    assert_eq!(Comparison::Equal.as_sql(), " = $");
}
