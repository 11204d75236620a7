//! The query for a list of listings: the filters of a request as typed
//! clauses, and the parameterized statement that they make.
//!
//! What a caller sends never becomes part of the statement. Each value is
//! a binding, and the statement names it by the number of its place.

use vstd::prelude::*;
use crate::text::{
    decimal_digits, decimal_text, opt_str, opt_text, push_decimal, same_text, texts,
};

verus! {

/// The filters of a request for listings. A filter that is absent does not
/// narrow the list. The two prices come as decimal text.
#[derive(Clone, Debug, PartialEq, Eq)]
pub struct ListingFilters {
    pub category: Option<String>,
    pub listing_type: Option<String>,
    pub min_price: Option<String>,
    pub max_price: Option<String>,
    pub seller_id: Option<String>,
    pub status: Option<String>,
    pub is_verified: Option<bool>,
    pub search_query: Option<String>,
    /// `price_asc`, `price_desc` or `popularity`; anything else lists the
    /// newest first.
    pub sort_by: Option<String>,
    pub page: Option<i64>,
    pub limit: Option<i64>,
}

/// A column of a listing that a clause compares.
#[derive(Clone, Copy, Debug, PartialEq, Eq, Structural)]
pub enum Column {
    Category,
    ListingType,
    SellingPrice,
    SellerId,
    Status,
    IsVerified,
}

/// How a clause compares its column with its value.
#[derive(Clone, Copy, Debug, PartialEq, Eq, Structural)]
pub enum Comparison {
    Equal,
    AtLeast,
    AtMost,
}

/// One clause of the query.
#[derive(Clone, Debug, PartialEq, Eq)]
pub enum Predicate {
    /// The column compares with the value.
    Compare { column: Column, comparison: Comparison, value: String },
    /// The title, the description or the brand holds the text, without
    /// regard to case.
    Search { text: String },
}

/// What a clause holds.
pub enum PredicateView {
    Compare { column: Column, comparison: Comparison, value: Seq<char> },
    Search { text: Seq<char> },
}

impl View for Predicate {
    type V = PredicateView;

    open spec fn view(&self) -> PredicateView {
        match self {
            Predicate::Compare { column, comparison, value } => PredicateView::Compare {
                column: *column,
                comparison: *comparison,
                value: value@,
            },
            Predicate::Search { text } => PredicateView::Search { text: text@ },
        }
    }
}

/// The order of the list.
#[derive(Clone, Copy, Debug, PartialEq, Eq, Structural)]
pub enum SortOrder {
    PriceAscending,
    PriceDescending,
    Popularity,
    Newest,
}

/// The query for a list of listings.
#[derive(Clone, Debug, PartialEq, Eq)]
pub struct ListingQuery {
    pub predicates: Vec<Predicate>,
    pub order: SortOrder,
    pub limit: i64,
    /// How many listings are passed over: the page times the limit.
    pub offset: i128,
}

/// A statement with the values that it is run with, in the order of their
/// places.
#[derive(Clone, Debug, PartialEq, Eq)]
pub struct Statement {
    pub sql: String,
    pub bindings: Vec<String>,
}

/// The part of a list that a request asks for.
#[derive(Clone, Copy, Debug, PartialEq, Eq, Structural)]
pub struct Page {
    /// How many entries the page holds at most.
    pub limit: i64,
    /// How many entries are passed over before the page.
    pub offset: i128,
}

/// The filters of a request for the transactions of a user.
#[derive(Clone, Debug, PartialEq, Eq)]
pub struct TransactionFilters {
    pub status: Option<String>,
    /// `buyer` or `seller`.
    pub role: Option<String>,
    pub page: Option<i64>,
    pub limit: Option<i64>,
}

/// The filters of a request for reviews.
#[derive(Clone, Debug, PartialEq, Eq)]
pub struct ReviewFilters {
    pub is_buyer_review: Option<bool>,
    pub min_rating: Option<i32>,
    pub page: Option<i64>,
    pub limit: Option<i64>,
}

/// The filters of a request for notifications.
#[derive(Clone, Debug, PartialEq, Eq)]
pub struct NotificationFilters {
    pub is_read: Option<bool>,
    pub notification_type: Option<String>,
    pub page: Option<i64>,
    pub limit: Option<i64>,
}

/// The listings of one page where the request names no limit.
pub const DEFAULT_LIMIT: i64 = 20;

/// The most listings that one page holds.
pub const MAX_LIMIT: i64 = 100;

impl Column {
    /// The name of the column in the statement.
    pub open spec fn name(self) -> Seq<char> {
        match self {
            Column::Category => "l.category"@,
            Column::ListingType => "l.listing_type"@,
            Column::SellingPrice => "l.selling_price"@,
            Column::SellerId => "l.seller_id"@,
            Column::Status => "l.status"@,
            Column::IsVerified => "l.is_verified"@,
        }
    }

    /// The name of the column in the statement.
    pub fn as_sql(&self) -> (s: &'static str)
        ensures
            s@ == self.name(),
    {
        match self {
            Column::Category => "l.category",
            Column::ListingType => "l.listing_type",
            Column::SellingPrice => "l.selling_price",
            Column::SellerId => "l.seller_id",
            Column::Status => "l.status",
            Column::IsVerified => "l.is_verified",
        }
    }
}

impl Comparison {
    /// The operator of the comparison in the statement.
    pub open spec fn operator(self) -> Seq<char> {
        match self {
            Comparison::Equal => " = $"@,
            Comparison::AtLeast => " >= $"@,
            Comparison::AtMost => " <= $"@,
        }
    }

    /// The operator of the comparison in the statement.
    pub fn as_sql(&self) -> (s: &'static str)
        ensures
            s@ == self.operator(),
    {
        match self {
            Comparison::Equal => " = $",
            Comparison::AtLeast => " >= $",
            Comparison::AtMost => " <= $",
        }
    }
}

impl SortOrder {
    /// The order that a request names.
    pub open spec fn named(sort_by: Option<Seq<char>>) -> SortOrder {
        if sort_by == Some("price_asc"@) {
            SortOrder::PriceAscending
        } else if sort_by == Some("price_desc"@) {
            SortOrder::PriceDescending
        } else if sort_by == Some("popularity"@) {
            SortOrder::Popularity
        } else {
            SortOrder::Newest
        }
    }

    /// Reads the order that a request names.
    pub fn parse(sort_by: Option<&str>) -> (order: SortOrder)
        ensures
            order == SortOrder::named(opt_str(sort_by)),
    {
        match sort_by {
            Some(name) => {
                if same_text(name, "price_asc") {
                    SortOrder::PriceAscending
                } else if same_text(name, "price_desc") {
                    SortOrder::PriceDescending
                } else if same_text(name, "popularity") {
                    SortOrder::Popularity
                } else {
                    SortOrder::Newest
                }
            },
            None => SortOrder::Newest,
        }
    }

    /// The clause of the order in the statement.
    pub open spec fn clause(self) -> Seq<char> {
        match self {
            SortOrder::PriceAscending => " ORDER BY l.selling_price ASC"@,
            SortOrder::PriceDescending => " ORDER BY l.selling_price DESC"@,
            SortOrder::Popularity => " ORDER BY l.view_count DESC"@,
            SortOrder::Newest => " ORDER BY l.created_at DESC"@,
        }
    }

    /// The clause of the order in the statement.
    pub fn as_sql(&self) -> (s: &'static str)
        ensures
            s@ == self.clause(),
    {
        match self {
            SortOrder::PriceAscending => " ORDER BY l.selling_price ASC",
            SortOrder::PriceDescending => " ORDER BY l.selling_price DESC",
            SortOrder::Popularity => " ORDER BY l.view_count DESC",
            SortOrder::Newest => " ORDER BY l.created_at DESC",
        }
    }
}

/// The statement before its clauses.
pub open spec fn select_listings() -> Seq<char> {
    "SELECT l.*, u.username as seller_username, COALESCE(ts.trust_score, 50.0) as seller_trust_score, u.email as seller_profile_image FROM marketplace_listings l LEFT JOIN users u ON l.seller_id = u.auth0_id LEFT JOIN marketplace_trust_scores ts ON l.seller_id = ts.user_id WHERE 1=1"@
}

impl PredicateView {
    /// How many places of the statement the clause takes.
    pub open spec fn places(self) -> nat {
        match self {
            PredicateView::Compare { .. } => 1,
            PredicateView::Search { .. } => 3,
        }
    }

    /// The text of the clause, whose first place has the number `first`.
    pub open spec fn rendered(self, first: nat) -> Seq<char> {
        match self {
            PredicateView::Compare { column, comparison, value } => " AND "@ + column.name()
                + comparison.operator() + decimal_digits(first),
            PredicateView::Search { text } => " AND (l.title ILIKE $"@ + decimal_digits(first)
                + " OR l.description ILIKE $"@ + decimal_digits(first + 1)
                + " OR l.brand_name ILIKE $"@ + decimal_digits(first + 2) + ")"@,
        }
    }

    /// The values of the clause, one for each of its places.
    pub open spec fn bound(self) -> Seq<Seq<char>> {
        match self {
            PredicateView::Compare { column, comparison, value } => seq![value],
            PredicateView::Search { text } => seq![
                pattern(text),
                pattern(text),
                pattern(text),
            ],
        }
    }

    /// The clause without its value: all that the statement shows of it.
    pub open spec fn shape(self) -> PredicateView {
        match self {
            PredicateView::Compare { column, comparison, value } => PredicateView::Compare {
                column,
                comparison,
                value: Seq::empty(),
            },
            PredicateView::Search { text } => PredicateView::Search { text: Seq::empty() },
        }
    }
}

/// The pattern that finds a text anywhere in a column.
pub open spec fn pattern(text: Seq<char>) -> Seq<char> {
    seq!['%'] + text + seq!['%']
}

/// The views of a list of clauses.
pub open spec fn predicate_views(v: Seq<Predicate>) -> Seq<PredicateView> {
    Seq::new(v.len(), |i: int| v[i]@)
}

/// How many places a list of clauses takes.
pub open spec fn places_of(predicates: Seq<PredicateView>) -> nat
    decreases predicates.len(),
{
    if predicates.len() == 0 {
        0
    } else {
        places_of(predicates.drop_last()) + predicates.last().places()
    }
}

/// The text of a list of clauses, whose places are numbered from one in
/// their order.
pub open spec fn rendered_clauses(predicates: Seq<PredicateView>) -> Seq<char>
    decreases predicates.len(),
{
    if predicates.len() == 0 {
        Seq::empty()
    } else {
        rendered_clauses(predicates.drop_last()) + predicates.last().rendered(
            places_of(predicates.drop_last()) + 1,
        )
    }
}

/// The values of a list of clauses, in the order of their places.
pub open spec fn bound_values(predicates: Seq<PredicateView>) -> Seq<Seq<char>>
    decreases predicates.len(),
{
    if predicates.len() == 0 {
        Seq::empty()
    } else {
        bound_values(predicates.drop_last()) + predicates.last().bound()
    }
}

/// The shapes of a list of clauses.
pub open spec fn shapes(predicates: Seq<PredicateView>) -> Seq<PredicateView> {
    Seq::new(predicates.len(), |i: int| predicates[i].shape())
}

/// The clauses of a request, in the order in which the statement holds
/// them: category, type, lowest and highest price, seller, status,
/// verification, search.
pub open spec fn clauses_of(filters: ListingFilters) -> Seq<PredicateView> {
    equals_clause(Column::Category, filters.category)
        + equals_clause(Column::ListingType, filters.listing_type)
        + compare_clause(Column::SellingPrice, Comparison::AtLeast, filters.min_price)
        + compare_clause(Column::SellingPrice, Comparison::AtMost, filters.max_price)
        + equals_clause(Column::SellerId, filters.seller_id)
        + equals_clause(Column::Status, filters.status)
        + (match filters.is_verified {
        Some(b) => seq![
            PredicateView::Compare {
                column: Column::IsVerified,
                comparison: Comparison::Equal,
                value: truth_text(b),
            },
        ],
        None => Seq::empty(),
    }) + (match filters.search_query {
        Some(q) => seq![PredicateView::Search { text: q@ }],
        None => Seq::empty(),
    })
}

/// The clause of a filter on a column, if the filter is there.
pub open spec fn compare_clause(column: Column, comparison: Comparison, value: Option<String>) -> Seq<
    PredicateView,
> {
    match value {
        Some(v) => seq![PredicateView::Compare { column, comparison, value: v@ }],
        None => Seq::empty(),
    }
}

/// The clause of a filter for equality on a column, if the filter is there.
pub open spec fn equals_clause(column: Column, value: Option<String>) -> Seq<PredicateView> {
    compare_clause(column, Comparison::Equal, value)
}

/// The text of a truth value.
pub open spec fn truth_text(b: bool) -> Seq<char> {
    if b {
        "true"@
    } else {
        "false"@
    }
}

/// The limit of a request: what it asks for, twenty where it asks for
/// nothing, and never more than a hundred.
pub open spec fn limit_of(limit: Option<i64>) -> i64 {
    let asked = match limit {
        Some(n) => n,
        None => DEFAULT_LIMIT,
    };
    if asked < MAX_LIMIT {
        asked
    } else {
        MAX_LIMIT
    }
}

/// The offset of a request: its page, the first being page zero, times its
/// limit.
pub open spec fn offset_of(page: Option<i64>, limit: Option<i64>) -> int {
    (match page {
        Some(p) => p as int,
        None => 0,
    }) * limit_of(limit)
}

/// The statement of a query.
pub open spec fn statement_text(
    predicates: Seq<PredicateView>,
    order: SortOrder,
    limit: int,
    offset: int,
) -> Seq<char> {
    select_listings() + rendered_clauses(predicates) + order.clause() + " LIMIT "@ + decimal_text(
        limit,
    ) + " OFFSET "@ + decimal_text(offset)
}

/// The part of a list that a page and a limit ask for.
pub fn page_of(page: Option<i64>, limit: Option<i64>) -> (window: Page)
    ensures
        window.limit == limit_of(limit),
        window.offset == offset_of(page, limit),
{
    let asked = match limit {
        Some(n) => n,
        None => DEFAULT_LIMIT,
    };
    let limit = if asked < MAX_LIMIT {
        asked
    } else {
        MAX_LIMIT
    };
    let page: i128 = match page {
        Some(p) => p as i128,
        None => 0,
    };
    assert(-0x8000_0000_0000_0000 * 0x8000_0000_0000_0000 <= page * (limit as i128)
        <= 0x8000_0000_0000_0000 * 0x8000_0000_0000_0000) by (nonlinear_arith)
        requires
            -0x8000_0000_0000_0000 <= page <= 0x7fff_ffff_ffff_ffff,
            -0x8000_0000_0000_0000 <= limit <= 100,
    ;
    Page { limit, offset: page * (limit as i128) }
}

impl TransactionFilters {
    /// The part of the list that the request asks for.
    pub fn window(&self) -> (window: Page)
        ensures
            window.limit == limit_of(self.limit),
            window.offset == offset_of(self.page, self.limit),
    {
        page_of(self.page, self.limit)
    }
}

impl ReviewFilters {
    /// The part of the list that the request asks for.
    pub fn window(&self) -> (window: Page)
        ensures
            window.limit == limit_of(self.limit),
            window.offset == offset_of(self.page, self.limit),
    {
        page_of(self.page, self.limit)
    }
}

impl NotificationFilters {
    /// The part of the list that the request asks for.
    pub fn window(&self) -> (window: Page)
        ensures
            window.limit == limit_of(self.limit),
            window.offset == offset_of(self.page, self.limit),
    {
        page_of(self.page, self.limit)
    }
}

/// Appends the decimal text of an integer.
fn push_integer(out: &mut String, i: i128)
    ensures
        final(out)@ == old(out)@ + decimal_text(i as int),
{
    if i < 0 {
        out.push('-');
        let magnitude: u128 = if i == i128::MIN {
            0x8000_0000_0000_0000_0000_0000_0000_0000
        } else {
            (-i) as u128
        };
        push_decimal(out, magnitude);
        assert(out@ =~= old(out)@ + (seq!['-'] + decimal_digits((-i) as nat)));
    } else {
        push_decimal(out, i as u128);
    }
}

/// Adds the clause of a filter on a column, if the filter is there.
fn push_compare(
    predicates: &mut Vec<Predicate>,
    column: Column,
    comparison: Comparison,
    value: &Option<String>,
)
    ensures
        predicate_views(final(predicates)@) == predicate_views(old(predicates)@) + compare_clause(
            column,
            comparison,
            *value,
        ),
{
    let ghost before = predicate_views(predicates@);
    match value {
        Some(v) => {
            predicates.push(Predicate::Compare { column, comparison, value: v.clone() });
            assert(predicate_views(predicates@) =~= before + compare_clause(
                column,
                comparison,
                *value,
            ));
        },
        None => {
            assert(before + Seq::<PredicateView>::empty() =~= before);
        },
    }
}

impl ListingQuery {
    /// The query that the filters of a request make.
    pub fn from_filters(filters: &ListingFilters) -> (query: ListingQuery)
        ensures
            predicate_views(query.predicates@) == clauses_of(*filters),
            query.order == SortOrder::named(opt_text(filters.sort_by)),
            query.limit == limit_of(filters.limit),
            query.offset == offset_of(filters.page, filters.limit),
    {
        let mut predicates: Vec<Predicate> = Vec::new();
        assert(predicate_views(predicates@) =~= Seq::<PredicateView>::empty());
        push_compare(&mut predicates, Column::Category, Comparison::Equal, &filters.category);
        push_compare(&mut predicates, Column::ListingType, Comparison::Equal, &filters.listing_type);
        push_compare(&mut predicates, Column::SellingPrice, Comparison::AtLeast, &filters.min_price);
        push_compare(&mut predicates, Column::SellingPrice, Comparison::AtMost, &filters.max_price);
        push_compare(&mut predicates, Column::SellerId, Comparison::Equal, &filters.seller_id);
        push_compare(&mut predicates, Column::Status, Comparison::Equal, &filters.status);
        let ghost before = predicate_views(predicates@);
        match filters.is_verified {
            Some(b) => {
                let value = if b {
                    "true".to_owned()
                } else {
                    "false".to_owned()
                };
                predicates.push(
                    Predicate::Compare {
                        column: Column::IsVerified,
                        comparison: Comparison::Equal,
                        value,
                    },
                );
                assert(predicate_views(predicates@) =~= before.push(
                    PredicateView::Compare {
                        column: Column::IsVerified,
                        comparison: Comparison::Equal,
                        value: truth_text(b),
                    },
                ));
            },
            None => {},
        }
        let ghost before = predicate_views(predicates@);
        match &filters.search_query {
            Some(q) => {
                predicates.push(Predicate::Search { text: q.clone() });
                assert(predicate_views(predicates@) =~= before.push(
                    PredicateView::Search { text: q@ },
                ));
            },
            None => {},
        }
        assert(predicate_views(predicates@) =~= clauses_of(*filters));
        let order = match &filters.sort_by {
            Some(name) => SortOrder::parse(Some(name.as_str())),
            None => SortOrder::parse(None),
        };
        let window = page_of(filters.page, filters.limit);
        ListingQuery { predicates, order, limit: window.limit, offset: window.offset }
    }

    /// The statement of the query, with its values.
    pub fn to_statement(&self) -> (statement: Statement)
        ensures
            statement.sql@ == statement_text(
                predicate_views(self.predicates@),
                self.order,
                self.limit as int,
                self.offset as int,
            ),
            texts(statement.bindings@) == bound_values(predicate_views(self.predicates@)),
    {
        let ghost all = predicate_views(self.predicates@);
        let mut sql =
            "SELECT l.*, u.username as seller_username, COALESCE(ts.trust_score, 50.0) as seller_trust_score, u.email as seller_profile_image FROM marketplace_listings l LEFT JOIN users u ON l.seller_id = u.auth0_id LEFT JOIN marketplace_trust_scores ts ON l.seller_id = ts.user_id WHERE 1=1".to_owned();
        let mut bindings: Vec<String> = Vec::new();
        let mut place: u128 = 1;
        let mut i: usize = 0;
        proof {
            assert(all.subrange(0, 0) =~= Seq::<PredicateView>::empty());
            assert(sql@ =~= select_listings() + rendered_clauses(all.subrange(0, 0)));
            assert(texts(bindings@) =~= bound_values(all.subrange(0, 0)));
        }
        while i < self.predicates.len()
            invariant
                i <= self.predicates.len(),
                all == predicate_views(self.predicates@),
                place == places_of(all.subrange(0, i as int)) + 1,
                place <= 3 * i + 1,
                sql@ == select_listings() + rendered_clauses(all.subrange(0, i as int)),
                texts(bindings@) == bound_values(all.subrange(0, i as int)),
            decreases self.predicates.len() - i,
        {
            let ghost prefix = all.subrange(0, i as int);
            let ghost sql_before = sql@;
            let ghost bound_before = texts(bindings@);
            proof {
                let next = all.subrange(0, i + 1);
                assert(next.drop_last() =~= prefix);
                assert(next.last() == self.predicates@[i as int]@);
            }
            match &self.predicates[i] {
                Predicate::Compare { column, comparison, value } => {
                    sql.push_str(" AND ");
                    sql.push_str(column.as_sql());
                    sql.push_str(comparison.as_sql());
                    push_decimal(&mut sql, place);
                    bindings.push(value.clone());
                    proof {
                        let p = self.predicates@[i as int]@;
                        assert(sql@ =~= sql_before + p.rendered(place as nat));
                        assert(texts(bindings@) =~= bound_before + p.bound());
                    }
                    place = place + 1;
                },
                Predicate::Search { text } => {
                    sql.push_str(" AND (l.title ILIKE $");
                    push_decimal(&mut sql, place);
                    sql.push_str(" OR l.description ILIKE $");
                    push_decimal(&mut sql, place + 1);
                    sql.push_str(" OR l.brand_name ILIKE $");
                    push_decimal(&mut sql, place + 2);
                    sql.push_str(")");
                    let mut like = String::new();
                    like.push('%');
                    like.push_str(text.as_str());
                    like.push('%');
                    assert(like@ =~= pattern(text@));
                    bindings.push(like.clone());
                    bindings.push(like.clone());
                    bindings.push(like);
                    proof {
                        let p = self.predicates@[i as int]@;
                        assert(sql@ =~= sql_before + p.rendered(place as nat));
                        assert(texts(bindings@) =~= bound_before + p.bound());
                    }
                    place = place + 3;
                },
            }
            proof {
                assert(sql@ =~= select_listings() + rendered_clauses(all.subrange(0, i + 1)));
            }
            i += 1;
        }
        assert(all.subrange(0, self.predicates.len() as int) =~= all);
        sql.push_str(self.order.as_sql());
        sql.push_str(" LIMIT ");
        push_integer(&mut sql, self.limit as i128);
        sql.push_str(" OFFSET ");
        push_integer(&mut sql, self.offset);
        assert(sql@ =~= statement_text(all, self.order, self.limit as int, self.offset as int));
        Statement { sql, bindings }
    }
}

/// The statement for the listings that a request asks for, with its
/// values.
pub fn get_listings(filters: &ListingFilters) -> (statement: Statement)
    ensures
        statement.sql@ == statement_text(
            clauses_of(*filters),
            SortOrder::named(opt_text(filters.sort_by)),
            limit_of(filters.limit) as int,
            offset_of(filters.page, filters.limit),
        ),
        texts(statement.bindings@) == bound_values(clauses_of(*filters)),
{
    ListingQuery::from_filters(filters).to_statement()
}

/// A list of clauses takes as many places as it has values.
pub proof fn lemma_a_value_for_each_place(predicates: Seq<PredicateView>)
    ensures
        bound_values(predicates).len() == places_of(predicates),
    decreases predicates.len(),
{
    if predicates.len() > 0 {
        lemma_a_value_for_each_place(predicates.drop_last());
    }
}

/// The statement shows nothing of the values: two lists of clauses of the
/// same shapes, in the same order and with the same page, make the same
/// statement, whatever their values are.
pub proof fn lemma_statement_hides_values(
    first: Seq<PredicateView>,
    second: Seq<PredicateView>,
    order: SortOrder,
    limit: int,
    offset: int,
)
    requires
        shapes(first) == shapes(second),
    ensures
        statement_text(first, order, limit, offset) == statement_text(second, order, limit, offset),
{
    lemma_clauses_hide_values(first, second);
}

/// Two lists of clauses of the same shapes take the same places and have
/// the same text.
pub proof fn lemma_clauses_hide_values(first: Seq<PredicateView>, second: Seq<PredicateView>)
    requires
        shapes(first) == shapes(second),
    ensures
        places_of(first) == places_of(second),
        rendered_clauses(first) == rendered_clauses(second),
    decreases first.len(),
{
    assert(first.len() == shapes(first).len());
    assert(second.len() == shapes(second).len());
    if first.len() > 0 {
        let a = first.drop_last();
        let b = second.drop_last();
        assert(shapes(a) =~= shapes(b)) by {
            assert(shapes(a).len() == shapes(b).len());
            assert forall|i: int| 0 <= i < a.len() implies shapes(a)[i] == shapes(b)[i] by {
                assert(shapes(first)[i] == first[i].shape());
                assert(shapes(second)[i] == second[i].shape());
                assert(a[i] == first[i] && b[i] == second[i]);
            }
        }
        lemma_clauses_hide_values(a, b);
        let k = first.len() - 1;
        assert(shapes(first)[k] == first[k].shape());
        assert(shapes(second)[k] == second[k].shape());
        assert(first.last().shape() == second.last().shape());
    }
}

} // verus!
