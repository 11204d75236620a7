//! The marketplace service: the operations that a caller sees, each of them
//! a step from the records that were read to the records to write.
//!
//! An operation that is throttled takes the stored counter of the caller
//! and hands back the counter to store, whatever else comes of it.
//! Operations that need an identifier or the time draw them themselves; each
//! has a twin, named `_at`, that takes them as arguments and whose contract
//! is exact.

use vstd::prelude::*;
use crate::clock::unix_now;
use crate::decimal::{discount_percentage, discount_percent, decimal_difference, decimal_quotient, Decimal, DecimalView};
use crate::duplicate_detector::{
    candidate_views, fingerprint, similar_listings, DuplicateDetector, DuplicateInfo, DuplicateView,
    FingerprintRecord, Inquiry, ListingCandidate,
};
use crate::error::{ForbiddenReason, InternalReason, InvalidReason, MarketError, Resource};
use crate::ids::fresh_id;
use crate::model::{
    opt_amount, CreateListingRequest, CreateReviewRequest, CreateTransactionRequest, ListingStatus,
    ListingType, ListingView, MarketplaceListing, MarketplaceTransaction, UpdateListingRequest,
};
use crate::rate_limiter::{ActionType, RateLimit, RateLimitCounter, RateLimiter};
use crate::reputation::{
    MarketplaceTrustScore, ReviewAggregate, TrustScoreView, NEUTRAL_SCORE,
};
use crate::text::{opt_str, opt_text, same_text, texts};
use crate::transaction::{
    aggregate_full, complete, completed, completion_error, completion_notification, counts_full,
    grant_of, opt_listing, opt_transaction, opt_trust, purchase, purchase_error, purchased, review,
    review_error, review_notification, reviewed, sale_notification, sold, with_rating,
    CompletionOutcome, PurchaseOutcome, ReviewOutcome,
};
use crate::model::CouponAccessGrant;
use crate::vault::{
    ciphertext_of, grant_views, may_reveal, nonce_of, well_sealed, SealedSecret,
};

verus! {

/// The result of a throttled operation: the counter to store, and what came
/// of the operation itself.
#[derive(Debug)]
pub struct Throttled<T> {
    pub counter: RateLimitCounter,
    pub outcome: Result<T, MarketError>,
}

/// A listing that has been created, with all that is to be written beside
/// it.
#[derive(Clone, Debug, PartialEq, Eq)]
pub struct ListingCreated {
    pub listing: MarketplaceListing,
    /// The secret to encrypt and store: the code of a discount-code
    /// listing.
    pub secret: Option<String>,
    /// The fingerprint of the secret, where there is one.
    pub fingerprint: Option<FingerprintRecord>,
    /// The trust record of the seller: the one that was there, or a neutral
    /// one.
    pub seller_trust: MarketplaceTrustScore,
}

/// What comes of the creation of a listing.
#[derive(Clone, Debug, PartialEq, Eq)]
pub enum CreateListingOutcome {
    /// The listing was created.
    Created(ListingCreated),
    /// Nothing was created: the listing looks like one that another seller
    /// offers. The caller shows the warning; a seller who wants to go on
    /// creates the listing again without candidates.
    DuplicateWarning(DuplicateInfo),
}

/// A listing with what a reader wants to know of its seller.
#[derive(Clone, Debug, PartialEq, Eq)]
pub struct ListingWithSeller {
    pub listing: MarketplaceListing,
    pub seller_username: String,
    /// The seller's score in thousandths of a point.
    pub seller_trust_score: u32,
    pub seller_profile_image: Option<String>,
}

/// What the store knows of a user.
#[derive(Clone, Debug, PartialEq, Eq)]
pub struct UserRecord {
    pub username: String,
    pub email: Option<String>,
    pub created_at: i64,
}

/// The public profile of a user.
#[derive(Clone, Debug, PartialEq, Eq)]
pub struct MarketplaceProfile {
    pub user_id: String,
    pub username: String,
    pub profile_image_url: Option<String>,
    pub trust_score: MarketplaceTrustScore,
    pub total_listings: i64,
    pub active_listings: i64,
    pub completed_sales: i64,
    pub member_since: i64,
}

/// The service. It holds the table of limits and the duplicate detector;
/// the records come and go with each call.
#[derive(Clone, Copy, Debug, PartialEq, Eq)]
pub struct MarketplaceService {
    pub limiter: RateLimiter,
    pub detector: DuplicateDetector,
}

/// The limiter turned the operation away: the outcome is the denial, with
/// the time to wait.
pub open spec fn denied<T>(decision: crate::rate_limiter::RateLimitDecision, outcome: Result<T, MarketError>) -> bool {
    outcome == Err::<T, MarketError>(
        MarketError::RateLimited { retry_after: decision.result.retry_after },
    )
}

/// What a purchase hands back.
pub open spec fn purchase_result(
    listing: Option<ListingView>,
    buyer: Seq<char>,
    payment_method: Seq<char>,
    buyer_trust: Option<TrustScoreView>,
    transaction_id: u128,
    now: i64,
    r: Result<PurchaseOutcome, MarketError>,
) -> bool {
    if purchase_error(listing, buyer) is Some {
        r == Err::<PurchaseOutcome, MarketError>(purchase_error(listing, buyer)->0)
    } else {
        r is Ok && r->Ok_0.listing@ == sold(listing->0) && r->Ok_0.transaction@ == purchased(
            listing->0,
            buyer,
            payment_method,
            transaction_id,
            now,
        ) && r->Ok_0.notification@ == sale_notification(listing->0, transaction_id)
            && r->Ok_0.buyer_trust@ == (match buyer_trust {
            Some(t) => t,
            None => TrustScoreView::neutral(buyer, now),
        })
    }
}

/// What a completion hands back.
pub open spec fn completion_result(
    transaction: Option<crate::model::TransactionView>,
    caller: Seq<char>,
    seller_trust: Option<TrustScoreView>,
    seller_reviews: ReviewAggregate,
    now: i64,
    r: Result<CompletionOutcome, MarketError>,
) -> bool {
    if completion_error(transaction, caller) is Some {
        r == Err::<CompletionOutcome, MarketError>(completion_error(transaction, caller)->0)
    } else if counts_full(seller_trust) {
        r == Err::<CompletionOutcome, MarketError>(
            MarketError::Internal(InternalReason::CounterOverflow),
        )
    } else {
        r is Ok && r->Ok_0.transaction@ == completed(transaction->0, now) && r->Ok_0.grant@
            == grant_of(transaction->0) && r->Ok_0.notification@ == completion_notification(
            transaction->0,
        ) && opt_trust(r->Ok_0.seller_trust) == (match seller_trust {
            Some(t) => Some(t.counted(true).recomputed(seller_reviews, now)),
            None => None,
        })
    }
}

/// What is wrong with a request for a listing as it arrives, if anything
/// is: it asks for a discount-code listing and carries no code.
pub open spec fn listing_request_error(request: CreateListingRequest) -> Option<MarketError> {
    if request.listing_type == ListingType::DiscountCode && request.coupon_code is None {
        Some(MarketError::InvalidOperation(InvalidReason::MissingCouponCode))
    } else {
        None
    }
}

/// The earlier listing that the request is warned of, if there is one: the
/// first candidate that the detector flags against the code of the request.
/// A request without a code is never warned of anything.
pub open spec fn duplicate_warning(
    request: CreateListingRequest,
    candidates: Seq<crate::duplicate_detector::CandidateView>,
    seller: Seq<char>,
) -> Option<DuplicateView> {
    if request.coupon_code is None {
        None
    } else {
        let found = similar_listings(
            candidates,
            (Inquiry {
                code: request.coupon_code->0@,
                category: request.category@,
                brand: opt_text(request.brand_name),
                seller,
            }),
        );
        if found.len() == 0 {
            None
        } else {
            Some(found[0])
        }
    }
}

/// Why the discount of a request cannot be computed, if it cannot.
pub open spec fn discount_error(request: CreateListingRequest) -> Option<MarketError> {
    if request.original_value is None {
        None
    } else {
        let original = request.original_value->0@;
        let selling = request.selling_price@;
        if !original.scale_in_range() || !selling.scale_in_range() {
            Some(MarketError::InvalidOperation(InvalidReason::AmountOutOfRange))
        } else if original.unscaled == 0 {
            Some(MarketError::InvalidOperation(InvalidReason::ZeroOriginalValue))
        } else if !decimal_quotient(decimal_difference(original, selling), original).scale_in_range() {
            Some(MarketError::Internal(InternalReason::DecimalOutOfRange))
        } else {
            None
        }
    }
}

/// The listing that a request creates: active, unseen and unverified, with
/// the discount derived from the original value and the selling price where
/// an original value is declared.
pub open spec fn created_listing(
    request: CreateListingRequest,
    seller: Seq<char>,
    listing_id: u128,
    now: i64,
) -> ListingView {
    ListingView {
        id: listing_id,
        seller_id: seller,
        listing_type: request.listing_type,
        title: request.title@,
        description: opt_text(request.description),
        category: request.category@,
        brand_name: opt_text(request.brand_name),
        original_value: opt_amount(request.original_value),
        selling_price: request.selling_price@,
        discount_percentage: match request.original_value {
            Some(original) => Some(discount_percent(original@, request.selling_price@)),
            None => None,
        },
        expiration_date: request.expiration_date,
        proof_image_url: opt_text(request.proof_image_url),
        status: ListingStatus::Active,
        created_at: now,
        updated_at: now,
        view_count: 0,
        tags: texts(request.tags@),
        is_verified: false,
        verification_date: None,
    }
}

/// The secret that is stored for a request: the code of a discount-code
/// listing.
pub open spec fn stored_secret(request: CreateListingRequest) -> Option<Seq<char>> {
    if request.listing_type == ListingType::DiscountCode {
        opt_text(request.coupon_code)
    } else {
        None
    }
}

/// What the creation of a listing hands back.
pub open spec fn creation_result(
    request: CreateListingRequest,
    seller: Seq<char>,
    candidates: Seq<crate::duplicate_detector::CandidateView>,
    seller_trust: Option<TrustScoreView>,
    listing_id: u128,
    now: i64,
    r: Result<CreateListingOutcome, MarketError>,
) -> bool {
    if duplicate_warning(request, candidates, seller) is Some {
        r is Ok && r->Ok_0 is DuplicateWarning && r->Ok_0->DuplicateWarning_0@ == duplicate_warning(
            request,
            candidates,
            seller,
        )->0
    } else if discount_error(request) is Some {
        r == Err::<CreateListingOutcome, MarketError>(discount_error(request)->0)
    } else {
        &&& r is Ok
        &&& r->Ok_0 is Created
        &&& r->Ok_0->Created_0.listing@ == created_listing(request, seller, listing_id, now)
        &&& opt_text(r->Ok_0->Created_0.secret) == stored_secret(request)
        &&& r->Ok_0->Created_0.seller_trust@ == (match seller_trust {
            Some(t) => t,
            None => TrustScoreView::neutral(seller, now),
        })
        &&& match stored_secret(request) {
            Some(code) => r->Ok_0->Created_0.fingerprint is Some
                && r->Ok_0->Created_0.fingerprint->0.listing_id == listing_id
                && r->Ok_0->Created_0.fingerprint->0.fingerprint@ == fingerprint(
                code,
                request.category@,
                opt_text(request.brand_name),
            ),
            None => r->Ok_0->Created_0.fingerprint is None,
        }
    }
}

/// What the throttled creation of a listing hands back: the counter as the
/// limiter leaves it, and either the denial of the limiter or what the creation
/// gives.
pub open spec fn creation_throttled(
    limit: RateLimit,
    counter: Option<RateLimitCounter>,
    request: CreateListingRequest,
    seller: Seq<char>,
    candidates: Seq<crate::duplicate_detector::CandidateView>,
    seller_trust: Option<TrustScoreView>,
    listing_id: u128,
    now: i64,
    r: Throttled<CreateListingOutcome>,
) -> bool {
    let decision = limit.check_and_increment(counter, now);
    &&& r.counter == decision.counter
    &&& if decision.result.allowed {
        creation_result(request, seller, candidates, seller_trust, listing_id, now, r.outcome)
    } else {
        denied(decision, r.outcome)
    }
}

/// What a throttled purchase hands back: the counter as the limiter leaves it,
/// and either the denial of the limiter or what the purchase gives.
pub open spec fn purchase_throttled(
    limit: RateLimit,
    counter: Option<RateLimitCounter>,
    listing: Option<ListingView>,
    buyer: Seq<char>,
    payment_method: Seq<char>,
    buyer_trust: Option<TrustScoreView>,
    transaction_id: u128,
    now: i64,
    r: Throttled<PurchaseOutcome>,
) -> bool {
    let decision = limit.check_and_increment(counter, now);
    &&& r.counter == decision.counter
    &&& if decision.result.allowed {
        purchase_result(listing, buyer, payment_method, buyer_trust, transaction_id, now, r.outcome)
    } else {
        denied(decision, r.outcome)
    }
}

/// What a review hands back.
pub open spec fn review_result(
    transaction: Option<crate::model::TransactionView>,
    author: Seq<char>,
    request: CreateReviewRequest,
    already_reviewed: bool,
    reviewed_trust: Option<TrustScoreView>,
    reviewed_reviews: ReviewAggregate,
    review_id: u128,
    now: i64,
    r: Result<ReviewOutcome, MarketError>,
) -> bool {
    let error = review_error(transaction, author, already_reviewed, request.rating);
    if error is Some {
        r == Err::<ReviewOutcome, MarketError>(error->0)
    } else if aggregate_full(reviewed_reviews, request.rating) {
        r == Err::<ReviewOutcome, MarketError>(MarketError::Internal(InternalReason::CounterOverflow))
    } else {
        r is Ok && r->Ok_0.review@ == reviewed(
            transaction->0,
            author,
            request.rating,
            opt_text(request.review_text),
            request.deal_verified,
            review_id,
            now,
        ) && r->Ok_0.notification@ == review_notification(transaction->0, author, request.rating)
            && opt_trust(r->Ok_0.reviewed_trust) == (match reviewed_trust {
            Some(t) => Some(t.recomputed(with_rating(reviewed_reviews, request.rating), now)),
            None => None,
        })
    }
}

/// What a throttled review hands back: the counter as the limiter leaves
/// it, and either the denial of the limiter or what the review gives.
pub open spec fn review_throttled(
    limit: RateLimit,
    counter: Option<RateLimitCounter>,
    transaction: Option<crate::model::TransactionView>,
    author: Seq<char>,
    request: CreateReviewRequest,
    already_reviewed: bool,
    reviewed_trust: Option<TrustScoreView>,
    reviewed_reviews: ReviewAggregate,
    review_id: u128,
    now: i64,
    r: Throttled<ReviewOutcome>,
) -> bool {
    let decision = limit.check_and_increment(counter, now);
    &&& r.counter == decision.counter
    &&& if decision.result.allowed {
        review_result(
            transaction,
            author,
            request,
            already_reviewed,
            reviewed_trust,
            reviewed_reviews,
            review_id,
            now,
            r.outcome,
        )
    } else {
        denied(decision, r.outcome)
    }
}

/// The view inside an optional borrowed transaction.
pub open spec fn opt_transaction_ref(o: Option<&MarketplaceTransaction>) -> Option<
    crate::model::TransactionView,
> {
    match o {
        Some(t) => Some(t@),
        None => None,
    }
}

/// Why a listing cannot be shown, if it cannot: it is absent, or its count
/// of views is full.
pub open spec fn view_error(listing: Option<ListingView>) -> Option<MarketError> {
    if listing is None {
        Some(MarketError::NotFound(Resource::Listing))
    } else if listing->0.view_count == i32::MAX {
        Some(MarketError::Internal(InternalReason::CounterOverflow))
    } else {
        None
    }
}

/// The listing after one more view.
pub open spec fn viewed(listing: ListingView) -> ListingView {
    ListingView { view_count: (listing.view_count + 1) as i32, ..listing }
}

/// Why a caller cannot change or remove a listing, if they cannot: the
/// listing is absent, or it is there and the caller is not its seller.
pub open spec fn ownership_error(listing: Option<ListingView>, seller: Seq<char>) -> Option<
    MarketError,
> {
    if listing is None {
        Some(MarketError::NotFound(Resource::Listing))
    } else if listing->0.seller_id != seller {
        Some(MarketError::Forbidden(ForbiddenReason::NotOwner))
    } else {
        None
    }
}

/// The listing after an update at `now`: the title of the request where it
/// gives one, and the instant of the update.
pub open spec fn updated(listing: ListingView, request: UpdateListingRequest, now: i64) -> ListingView {
    ListingView {
        title: match request.title {
            Some(t) => t@,
            None => listing.title,
        },
        updated_at: now,
        ..listing
    }
}

/// The views of a list of listings.
pub open spec fn listing_views(v: Seq<MarketplaceListing>) -> Seq<ListingView> {
    Seq::new(v.len(), |i: int| v[i]@)
}

/// How many listings of a list are a seller's and have a status. Without a
/// status, all listings of the seller count.
pub open spec fn listings_of(
    listings: Seq<ListingView>,
    seller: Seq<char>,
    status: Option<ListingStatus>,
) -> int
    decreases listings.len(),
{
    if listings.len() == 0 {
        0
    } else {
        listings_of(listings.drop_last(), seller, status) + if listings.last().seller_id == seller && (
        status is None || status == Some(listings.last().status)) {
            1int
        } else {
            0
        }
    }
}

/// There are at most as many listings of a seller as there are listings.
pub proof fn lemma_listings_of_bounds(
    listings: Seq<ListingView>,
    seller: Seq<char>,
    status: Option<ListingStatus>,
)
    ensures
        0 <= listings_of(listings, seller, status) <= listings.len(),
    decreases listings.len(),
{
    if listings.len() > 0 {
        lemma_listings_of_bounds(listings.drop_last(), seller, status);
    }
}

/// What the profile of a user hands back at `now`.
pub open spec fn profile_result(
    user_id: Seq<char>,
    user: Option<UserRecord>,
    trust: Option<TrustScoreView>,
    listings: Seq<ListingView>,
    now: i64,
    r: Result<MarketplaceProfile, MarketError>,
) -> bool {
    if user is None {
        r == Err::<MarketplaceProfile, MarketError>(MarketError::NotFound(Resource::User))
    } else if listings.len() > i64::MAX {
        r == Err::<MarketplaceProfile, MarketError>(
            MarketError::Internal(InternalReason::CounterOverflow),
        )
    } else {
        &&& r is Ok
        &&& r->Ok_0.user_id@ == user_id
        &&& r->Ok_0.username@ == user->0.username@
        &&& opt_text(r->Ok_0.profile_image_url) == opt_text(user->0.email)
        &&& r->Ok_0.member_since == user->0.created_at
        &&& r->Ok_0.trust_score@ == (match trust {
            Some(t) => t,
            None => TrustScoreView::neutral(user_id, now),
        })
        &&& r->Ok_0.total_listings == listings_of(listings, user_id, None)
        &&& r->Ok_0.active_listings == listings_of(listings, user_id, Some(ListingStatus::Active))
        &&& r->Ok_0.completed_sales == listings_of(listings, user_id, Some(ListingStatus::Sold))
    }
}

/// The text inside an optional string, as a slice.
fn as_opt_str(o: &Option<String>) -> (r: Option<&str>)
    ensures
        opt_str(r) == opt_text(*o),
{
    match o {
        Some(s) => Some(s.as_str()),
        None => None,
    }
}

impl MarketplaceService {
    /// Looks at a request for a listing as it arrives, before anything is
    /// read from the store: a request for a discount-code listing that
    /// carries no code is malformed.
    pub fn check_listing_request(request: &CreateListingRequest) -> (r: Result<(), MarketError>)
        ensures
            r == (match listing_request_error(*request) {
                Some(e) => Err::<(), MarketError>(e),
                None => Ok::<(), MarketError>(()),
            }),
    {
        if request.listing_type == ListingType::DiscountCode && request.coupon_code.is_none() {
            Err(MarketError::InvalidOperation(InvalidReason::MissingCouponCode))
        } else {
            Ok(())
        }
    }

    /// The service with the limits of the marketplace.
    pub fn new() -> (service: MarketplaceService)
        ensures
            service.limiter == RateLimiter::new_spec(),
    {
        MarketplaceService { limiter: RateLimiter::new(), detector: DuplicateDetector::new() }
    }

    /// Creates a listing for a seller, at an instant and under an
    /// identifier that are given.
    ///
    /// The request passes the limiter for listings first. Where the request
    /// carries a code, the detector compares it with `candidates`, and the
    /// first candidate that it flags is handed back as a warning in place
    /// of the listing. Otherwise the listing is created, active, with its
    /// discount derived from the declared value; the code of a
    /// discount-code listing is handed back to be encrypted and stored,
    /// with its fingerprint; and the seller has a trust record, a neutral
    /// one if none was there. A discount-code listing that carries no code
    /// is created all the same and has no secret; `check_listing_request`
    /// is for the caller who wants to turn such a request away.
    pub fn create_listing_at(
        &self,
        seller: &str,
        request: CreateListingRequest,
        counter: Option<RateLimitCounter>,
        candidates: &Vec<ListingCandidate>,
        seller_trust: Option<MarketplaceTrustScore>,
        listing_id: u128,
        now: i64,
    ) -> (r: Throttled<CreateListingOutcome>)
        ensures
            creation_throttled(
                self.limiter.limit_for(ActionType::CreateListing),
                counter,
                request,
                seller@,
                candidate_views(candidates@),
                opt_trust(seller_trust),
                listing_id,
                now,
                r,
            ),
    {
        let decision = self.limiter.check_and_increment_at(counter, ActionType::CreateListing, now);
        if !decision.result.allowed {
            return Throttled {
                counter: decision.counter,
                outcome: Err(MarketError::RateLimited { retry_after: decision.result.retry_after }),
            };
        }
        let outcome = Self::build_listing(
            &self.detector,
            seller,
            request,
            candidates,
            seller_trust,
            listing_id,
            now,
        );
        Throttled { counter: decision.counter, outcome }
    }

    /// The creation of a listing behind the limiter.
    fn build_listing(
        detector: &DuplicateDetector,
        seller: &str,
        request: CreateListingRequest,
        candidates: &Vec<ListingCandidate>,
        seller_trust: Option<MarketplaceTrustScore>,
        listing_id: u128,
        now: i64,
    ) -> (r: Result<CreateListingOutcome, MarketError>)
        ensures
            creation_result(
                request,
                seller@,
                candidate_views(candidates@),
                opt_trust(seller_trust),
                listing_id,
                now,
                r,
            ),
    {
        let is_code = request.listing_type == ListingType::DiscountCode;
        match &request.coupon_code {
            Some(code) => {
                let warning = detector.check_duplicate(
                    candidates,
                    code.as_str(),
                    request.category.as_str(),
                    as_opt_str(&request.brand_name),
                    seller,
                );
                match warning {
                    Some(found) => {
                        return Ok(CreateListingOutcome::DuplicateWarning(found));
                    },
                    None => {},
                }
            },
            None => {},
        }
        let discount = match &request.original_value {
            Some(original) => {
                match discount_percentage(original, &request.selling_price) {
                    Ok(d) => Some(d),
                    Err(e) => {
                        return Err(e);
                    },
                }
            },
            None => None,
        };
        let fingerprint = match (is_code, &request.coupon_code) {
            (true, Some(code)) => Some(
                FingerprintRecord {
                    listing_id,
                    fingerprint: DuplicateDetector::generate_fingerprint(
                        code.as_str(),
                        request.category.as_str(),
                        as_opt_str(&request.brand_name),
                    ),
                },
            ),
            _ => None,
        };
        let listing = MarketplaceListing {
            id: listing_id,
            seller_id: seller.to_owned(),
            listing_type: request.listing_type,
            title: request.title,
            description: request.description,
            category: request.category,
            brand_name: request.brand_name,
            original_value: request.original_value,
            selling_price: request.selling_price,
            discount_percentage: discount,
            expiration_date: request.expiration_date,
            proof_image_url: request.proof_image_url,
            status: ListingStatus::Active,
            created_at: now,
            updated_at: now,
            view_count: 0,
            tags: request.tags,
            is_verified: false,
            verification_date: None,
        };
        let secret = if is_code {
            request.coupon_code
        } else {
            None
        };
        let seller_trust = MarketplaceTrustScore::ensure_trust_score(seller_trust, seller, now);
        Ok(
            CreateListingOutcome::Created(
                ListingCreated { listing, secret, fingerprint, seller_trust },
            ),
        )
    }

    /// Creates a listing for a seller now, under a new identifier. See
    /// `create_listing_at`, of which this is the result for some instant and
    /// some identifier.
    pub fn create_listing(
        &self,
        seller: &str,
        request: CreateListingRequest,
        counter: Option<RateLimitCounter>,
        candidates: &Vec<ListingCandidate>,
        seller_trust: Option<MarketplaceTrustScore>,
    ) -> (r: Throttled<CreateListingOutcome>)
        ensures
            exists|listing_id: u128, now: i64| #[trigger]
                creation_throttled(
                    self.limiter.limit_for(ActionType::CreateListing),
                    counter,
                    request,
                    seller@,
                    candidate_views(candidates@),
                    opt_trust(seller_trust),
                    listing_id,
                    now,
                    r,
                ),
    {
        let listing_id = fresh_id();
        let now = unix_now();
        self.create_listing_at(seller, request, counter, candidates, seller_trust, listing_id, now)
    }

    /// The purchase of a listing by a buyer, at an instant and under an
    /// identifier that are given. The request passes the limiter for purchases
    /// first; behind the limiter it is the purchase of the state machine.
    pub fn create_transaction_at(
        &self,
        buyer: &str,
        request: &CreateTransactionRequest,
        counter: Option<RateLimitCounter>,
        listing: Option<MarketplaceListing>,
        buyer_trust: Option<MarketplaceTrustScore>,
        transaction_id: u128,
        now: i64,
    ) -> (r: Throttled<PurchaseOutcome>)
        ensures
            purchase_throttled(
                self.limiter.limit_for(ActionType::CreateTransaction),
                counter,
                opt_listing(listing),
                buyer@,
                request.payment_method@,
                opt_trust(buyer_trust),
                transaction_id,
                now,
                r,
            ),
    {
        let decision = self.limiter.check_and_increment_at(
            counter,
            ActionType::CreateTransaction,
            now,
        );
        if !decision.result.allowed {
            return Throttled {
                counter: decision.counter,
                outcome: Err(MarketError::RateLimited { retry_after: decision.result.retry_after }),
            };
        }
        let outcome = purchase(
            listing,
            buyer,
            request.payment_method.as_str(),
            buyer_trust,
            transaction_id,
            now,
        );
        Throttled { counter: decision.counter, outcome }
    }

    /// The purchase of a listing by a buyer now, under a new identifier. See
    /// `create_transaction_at`, of which this is the result for some instant
    /// and some identifier.
    pub fn create_transaction(
        &self,
        buyer: &str,
        request: &CreateTransactionRequest,
        counter: Option<RateLimitCounter>,
        listing: Option<MarketplaceListing>,
        buyer_trust: Option<MarketplaceTrustScore>,
    ) -> (r: Throttled<PurchaseOutcome>)
        ensures
            exists|transaction_id: u128, now: i64| #[trigger]
                purchase_throttled(
                    self.limiter.limit_for(ActionType::CreateTransaction),
                    counter,
                    opt_listing(listing),
                    buyer@,
                    request.payment_method@,
                    opt_trust(buyer_trust),
                    transaction_id,
                    now,
                    r,
                ),
    {
        let transaction_id = fresh_id();
        let now = unix_now();
        self.create_transaction_at(buyer, request, counter, listing, buyer_trust, transaction_id, now)
    }

    /// The completion of a transaction by its buyer now. See `complete` of
    /// the state machine, of which this is the result for some instant.
    pub fn complete_transaction(
        &self,
        buyer: &str,
        transaction: Option<MarketplaceTransaction>,
        seller_trust: Option<MarketplaceTrustScore>,
        seller_reviews: ReviewAggregate,
    ) -> (r: Result<CompletionOutcome, MarketError>)
        ensures
            exists|now: i64| #[trigger]
                completion_result(
                    opt_transaction(transaction),
                    buyer@,
                    opt_trust(seller_trust),
                    seller_reviews,
                    now,
                    r,
                ),
    {
        let now = unix_now();
        let r = complete(transaction, buyer, seller_trust, seller_reviews, now);
        assert(completion_result(
            opt_transaction(transaction),
            buyer@,
            opt_trust(seller_trust),
            seller_reviews,
            now,
            r,
        ));
        r
    }

    /// The review of a completed transaction by one of its parties, at an
    /// instant and under an identifier that are given. The request passes
    /// the limiter for reviews first; behind it, it is the review of the
    /// state machine.
    pub fn create_review_at(
        &self,
        author: &str,
        request: CreateReviewRequest,
        counter: Option<RateLimitCounter>,
        transaction: Option<&MarketplaceTransaction>,
        already_reviewed: bool,
        reviewed_trust: Option<MarketplaceTrustScore>,
        reviewed_reviews: ReviewAggregate,
        review_id: u128,
        now: i64,
    ) -> (r: Throttled<ReviewOutcome>)
        ensures
            review_throttled(
                self.limiter.limit_for(ActionType::CreateReview),
                counter,
                opt_transaction_ref(transaction),
                author@,
                request,
                already_reviewed,
                opt_trust(reviewed_trust),
                reviewed_reviews,
                review_id,
                now,
                r,
            ),
    {
        let decision = self.limiter.check_and_increment_at(counter, ActionType::CreateReview, now);
        if !decision.result.allowed {
            return Throttled {
                counter: decision.counter,
                outcome: Err(MarketError::RateLimited { retry_after: decision.result.retry_after }),
            };
        }
        let outcome = review(
            transaction,
            author,
            request.rating,
            request.review_text,
            request.deal_verified,
            already_reviewed,
            reviewed_trust,
            reviewed_reviews,
            review_id,
            now,
        );
        Throttled { counter: decision.counter, outcome }
    }

    /// The review of a completed transaction by one of its parties now,
    /// under a new identifier. See `create_review_at`, of which this is the
    /// result for some instant and some identifier.
    pub fn create_review(
        &self,
        author: &str,
        request: CreateReviewRequest,
        counter: Option<RateLimitCounter>,
        transaction: Option<&MarketplaceTransaction>,
        already_reviewed: bool,
        reviewed_trust: Option<MarketplaceTrustScore>,
        reviewed_reviews: ReviewAggregate,
    ) -> (r: Throttled<ReviewOutcome>)
        ensures
            exists|review_id: u128, now: i64| #[trigger]
                review_throttled(
                    self.limiter.limit_for(ActionType::CreateReview),
                    counter,
                    opt_transaction_ref(transaction),
                    author@,
                    request,
                    already_reviewed,
                    opt_trust(reviewed_trust),
                    reviewed_reviews,
                    review_id,
                    now,
                    r,
                ),
    {
        let review_id = fresh_id();
        let now = unix_now();
        self.create_review_at(
            author,
            request,
            counter,
            transaction,
            already_reviewed,
            reviewed_trust,
            reviewed_reviews,
            review_id,
            now,
        )
    }

    /// Shows a listing: counts one more view and puts beside the listing
    /// what a reader wants to know of its seller. A seller without a trust
    /// record is shown with the neutral score.
    pub fn get_listing(
        &self,
        listing: Option<MarketplaceListing>,
        seller_username: String,
        seller_trust_score: Option<u32>,
        seller_profile_image: Option<String>,
    ) -> (r: Result<ListingWithSeller, MarketError>)
        ensures
            view_error(opt_listing(listing)) is Some ==> r == Err::<ListingWithSeller, MarketError>(
                view_error(opt_listing(listing))->0,
            ),
            view_error(opt_listing(listing)) is None ==> r is Ok && r->Ok_0.listing@ == viewed(
                listing->0@,
            ) && r->Ok_0.seller_username@ == seller_username@ && r->Ok_0.seller_trust_score == (
            match seller_trust_score {
                Some(score) => score,
                None => NEUTRAL_SCORE,
            }) && opt_text(r->Ok_0.seller_profile_image) == opt_text(seller_profile_image),
    {
        let listing = match listing {
            Some(l) => l,
            None => {
                return Err(MarketError::NotFound(Resource::Listing));
            },
        };
        if listing.view_count == i32::MAX {
            return Err(MarketError::Internal(InternalReason::CounterOverflow));
        }
        let view_count = listing.view_count + 1;
        let score = match seller_trust_score {
            Some(score) => score,
            None => NEUTRAL_SCORE,
        };
        Ok(
            ListingWithSeller {
                listing: MarketplaceListing { view_count, ..listing },
                seller_username,
                seller_trust_score: score,
                seller_profile_image,
            },
        )
    }

    /// The statement for the listings that a request asks for, with its
    /// values; see `get_listings` of the query.
    pub fn get_listings(&self, filters: &crate::query::ListingFilters) -> (statement:
        crate::query::Statement)
        ensures
            statement.sql@ == crate::query::statement_text(
                crate::query::clauses_of(*filters),
                crate::query::SortOrder::named(opt_text(filters.sort_by)),
                crate::query::limit_of(filters.limit) as int,
                crate::query::offset_of(filters.page, filters.limit),
            ),
            texts(statement.bindings@) == crate::query::bound_values(
                crate::query::clauses_of(*filters),
            ),
    {
        crate::query::get_listings(filters)
    }

    /// Changes a listing for its seller at `now`. Of the fields of the
    /// request the title is taken over; the status, the amounts and the
    /// discount of the listing stay as they are. A listing that is absent
    /// is not found, and a caller who is not its seller is refused.
    pub fn update_listing_at(
        &self,
        seller: &str,
        listing: Option<MarketplaceListing>,
        request: UpdateListingRequest,
        now: i64,
    ) -> (r: Result<MarketplaceListing, MarketError>)
        ensures
            ownership_error(opt_listing(listing), seller@) is Some ==> r == Err::<
                MarketplaceListing,
                MarketError,
            >(ownership_error(opt_listing(listing), seller@)->0),
            ownership_error(opt_listing(listing), seller@) is None ==> r is Ok && r->Ok_0@ == updated(
                listing->0@,
                request,
                now,
            ),
    {
        let listing = match listing {
            Some(l) => l,
            None => {
                return Err(MarketError::NotFound(Resource::Listing));
            },
        };
        if !same_text(listing.seller_id.as_str(), seller) {
            return Err(MarketError::Forbidden(ForbiddenReason::NotOwner));
        }
        match request.title {
            Some(title) => Ok(MarketplaceListing { title, updated_at: now, ..listing }),
            None => Ok(MarketplaceListing { updated_at: now, ..listing }),
        }
    }

    /// Changes a listing for its seller now. See `update_listing_at`, of
    /// which this is the result for some instant.
    pub fn update_listing(
        &self,
        seller: &str,
        listing: Option<MarketplaceListing>,
        request: UpdateListingRequest,
    ) -> (r: Result<MarketplaceListing, MarketError>)
        ensures
            ownership_error(opt_listing(listing), seller@) is Some ==> r == Err::<
                MarketplaceListing,
                MarketError,
            >(ownership_error(opt_listing(listing), seller@)->0),
            ownership_error(opt_listing(listing), seller@) is None ==> r is Ok && exists|now: i64|
                r->Ok_0@ == #[trigger] updated(listing->0@, request, now),
    {
        let now = unix_now();
        self.update_listing_at(seller, listing, request, now)
    }

    /// Whether a caller may remove a listing: it is there and the caller is
    /// its seller. A listing that is absent is not found, and a caller who
    /// is not its seller is refused.
    pub fn delete_listing(&self, seller: &str, listing: Option<&MarketplaceListing>) -> (r: Result<
        (),
        MarketError,
    >)
        ensures
            r == (match ownership_error(
                match listing {
                    Some(l) => Some(l@),
                    None => None,
                },
                seller@,
            ) {
                Some(e) => Err::<(), MarketError>(e),
                None => Ok::<(), MarketError>(()),
            }),
    {
        match listing {
            Some(l) => {
                if same_text(l.seller_id.as_str(), seller) {
                    Ok(())
                } else {
                    Err(MarketError::Forbidden(ForbiddenReason::NotOwner))
                }
            },
            None => Err(MarketError::NotFound(Resource::Listing)),
        }
    }

    /// The public profile of a user at `now`: who they are, their trust
    /// record, a neutral one where they have none, and how many of
    /// `listings` are theirs, how many of these are active and how many
    /// sold. More listings than the profile can count are an error.
    pub fn get_user_profile_at(
        &self,
        user_id: &str,
        user: Option<UserRecord>,
        trust: Option<MarketplaceTrustScore>,
        listings: &Vec<MarketplaceListing>,
        now: i64,
    ) -> (r: Result<MarketplaceProfile, MarketError>)
        ensures
            profile_result(user_id@, user, opt_trust(trust), listing_views(listings@), now, r),
    {
        let user = match user {
            Some(u) => u,
            None => {
                return Err(MarketError::NotFound(Resource::User));
            },
        };
        if listings.len() as u128 > i64::MAX as u128 {
            return Err(MarketError::Internal(InternalReason::CounterOverflow));
        }
        let ghost all = listing_views(listings@);
        let mut total: i64 = 0;
        let mut active: i64 = 0;
        let mut sold: i64 = 0;
        let mut i: usize = 0;
        assert(all.subrange(0, 0) =~= Seq::<ListingView>::empty());
        while i < listings.len()
            invariant
                i <= listings.len() <= i64::MAX,
                all == listing_views(listings@),
                total == listings_of(all.subrange(0, i as int), user_id@, None),
                active == listings_of(
                    all.subrange(0, i as int),
                    user_id@,
                    Some(ListingStatus::Active),
                ),
                sold == listings_of(all.subrange(0, i as int), user_id@, Some(ListingStatus::Sold)),
            decreases listings.len() - i,
        {
            proof {
                let next = all.subrange(0, i + 1);
                assert(next.drop_last() =~= all.subrange(0, i as int));
                assert(next.last() == listings@[i as int]@);
                lemma_listings_of_bounds(all.subrange(0, i as int), user_id@, None);
                lemma_listings_of_bounds(
                    all.subrange(0, i as int),
                    user_id@,
                    Some(ListingStatus::Active),
                );
                lemma_listings_of_bounds(
                    all.subrange(0, i as int),
                    user_id@,
                    Some(ListingStatus::Sold),
                );
            }
            if same_text(listings[i].seller_id.as_str(), user_id) {
                total = total + 1;
                if listings[i].status == ListingStatus::Active {
                    active = active + 1;
                }
                if listings[i].status == ListingStatus::Sold {
                    sold = sold + 1;
                }
            }
            i += 1;
        }
        assert(all.subrange(0, listings.len() as int) =~= all);
        Ok(
            MarketplaceProfile {
                user_id: user_id.to_owned(),
                username: user.username,
                profile_image_url: user.email,
                trust_score: MarketplaceTrustScore::ensure_trust_score(trust, user_id, now),
                total_listings: total,
                active_listings: active,
                completed_sales: sold,
                member_since: user.created_at,
            },
        )
    }

    /// The public profile of a user now. See `get_user_profile_at`, of
    /// which this is the result for some instant.
    pub fn get_user_profile(
        &self,
        user_id: &str,
        user: Option<UserRecord>,
        trust: Option<MarketplaceTrustScore>,
        listings: &Vec<MarketplaceListing>,
    ) -> (r: Result<MarketplaceProfile, MarketError>)
        ensures
            exists|now: i64| #[trigger]
                profile_result(user_id@, user, opt_trust(trust), listing_views(listings@), now, r),
    {
        let now = unix_now();
        self.get_user_profile_at(user_id, user, trust, listings, now)
    }

    /// The stored secret of a listing for a requester, taken apart and
    /// ready to be decrypted; see `get_coupon_code` of the vault.
    pub fn get_coupon_code(
        &self,
        requester: &str,
        listing_id: u128,
        seller: Option<&str>,
        grants: &Vec<CouponAccessGrant>,
        stored: Option<&str>,
    ) -> (r: Result<Option<SealedSecret>, MarketError>)
        ensures
            !may_reveal(opt_str(seller), grant_views(grants@), listing_id, requester@) ==> r is Ok
                && r->Ok_0 is None,
            may_reveal(opt_str(seller), grant_views(grants@), listing_id, requester@) && stored is None
                ==> r is Ok && r->Ok_0 is None,
            may_reveal(opt_str(seller), grant_views(grants@), listing_id, requester@) && stored is Some
                && !well_sealed(stored->0@) ==> r == Err::<Option<SealedSecret>, MarketError>(
                MarketError::Internal(InternalReason::MalformedSecret),
            ),
            may_reveal(opt_str(seller), grant_views(grants@), listing_id, requester@) && stored is Some
                && well_sealed(stored->0@) ==> r is Ok && r->Ok_0 is Some && r->Ok_0->0.ciphertext@
                == ciphertext_of(stored->0@) && r->Ok_0->0.nonce@ == nonce_of(stored->0@),
    {
        crate::vault::get_coupon_code(seller, grants, listing_id, requester, stored)
    }
}


/// The status of a listing takes one step only: a purchase sells an active
/// listing. Showing a listing and changing it leave its status as it is,
/// and so they leave its amounts and its discount.
pub proof fn lemma_listing_status_steps(
    listing: ListingView,
    buyer: Seq<char>,
    request: UpdateListingRequest,
    now: i64,
)
    ensures
        purchase_error(Some(listing), buyer) is None ==> listing.status == ListingStatus::Active
            && sold(listing).status == ListingStatus::Sold,
        listing.status.steps_to(sold(listing).status) || purchase_error(Some(listing), buyer) is Some,
        viewed(listing).status == listing.status,
        updated(listing, request, now).id == listing.id,
        updated(listing, request, now).seller_id == listing.seller_id,
        updated(listing, request, now).status == listing.status,
        updated(listing, request, now).selling_price == listing.selling_price,
        updated(listing, request, now).original_value == listing.original_value,
        updated(listing, request, now).discount_percentage == listing.discount_percentage,
{
}

} // verus!
