//! The transaction state machine: the purchase of a listing, its way
//! through escrow to completion, cancellation or dispute, and the reviews
//! that follow a completed purchase.
//!
//! Each operation takes the records as they were read from the store and
//! hands back the records to write. The caller writes them as one atomic
//! unit, so that of two buyers of one listing only the first finds it
//! active.

use vstd::prelude::*;
use crate::error::{
    ConflictReason, ForbiddenReason, InternalReason, InvalidReason, MarketError, Resource,
};
use crate::model::{
    CancelTransactionRequest, CouponAccessGrant, CreateNotificationRequest, DisputeTransactionRequest,
    GrantView, ListingStatus, ListingView, MarketplaceListing, MarketplaceReview,
    MarketplaceTransaction, NotificationView, ReviewView, TransactionStatus, TransactionView,
    UpdateTransactionRequest,
};
use crate::reputation::{MarketplaceTrustScore, ReviewAggregate, TrustScoreView};
use crate::text::{decimal_text, opt_text, push_decimal, same_text};
use crate::vault::{backs, grant_views, grants_backed, has_grant, holds_grant, is_backed};

verus! {

/// The view inside an optional listing.
pub open spec fn opt_listing(o: Option<MarketplaceListing>) -> Option<ListingView> {
    match o {
        Some(l) => Some(l@),
        None => None,
    }
}

/// The view inside an optional transaction.
pub open spec fn opt_transaction(o: Option<MarketplaceTransaction>) -> Option<TransactionView> {
    match o {
        Some(t) => Some(t@),
        None => None,
    }
}

/// The view inside an optional trust record.
pub open spec fn opt_trust(o: Option<MarketplaceTrustScore>) -> Option<TrustScoreView> {
    match o {
        Some(t) => Some(t@),
        None => None,
    }
}

/// What a purchase writes: the listing, now sold, the new transaction, the
/// trust record of the buyer, and the notification for the seller.
#[derive(Clone, Debug, PartialEq, Eq)]
pub struct PurchaseOutcome {
    pub listing: MarketplaceListing,
    pub transaction: MarketplaceTransaction,
    /// The trust record of the buyer: the one that was there, or a neutral
    /// one for a first purchase.
    pub buyer_trust: MarketplaceTrustScore,
    pub notification: CreateNotificationRequest,
}

/// What a completion writes: the transaction, now completed, the grant that
/// lets the buyer read the secret, the seller's trust record if the seller
/// has one, and the notification for the seller.
#[derive(Clone, Debug, PartialEq, Eq)]
pub struct CompletionOutcome {
    pub transaction: MarketplaceTransaction,
    pub grant: CouponAccessGrant,
    pub seller_trust: Option<MarketplaceTrustScore>,
    pub notification: CreateNotificationRequest,
}

/// What a review writes: the review, the trust record of the reviewed party
/// if that party has one, and the notification for them.
#[derive(Clone, Debug, PartialEq, Eq)]
pub struct ReviewOutcome {
    pub review: MarketplaceReview,
    pub reviewed_trust: Option<MarketplaceTrustScore>,
    pub notification: CreateNotificationRequest,
}

/// Why a purchase fails, if it does: the listing is absent, or it is not
/// active, or the buyer is its seller, in this order.
pub open spec fn purchase_error(listing: Option<ListingView>, buyer: Seq<char>) -> Option<MarketError> {
    if listing is None {
        Some(MarketError::NotFound(Resource::Listing))
    } else if listing->0.status != ListingStatus::Active {
        Some(MarketError::Conflict(ConflictReason::ListingNotActive))
    } else if listing->0.seller_id == buyer {
        Some(MarketError::InvalidOperation(InvalidReason::SelfPurchase))
    } else {
        None
    }
}

/// The listing after its purchase: sold, and otherwise as it was.
pub open spec fn sold(listing: ListingView) -> ListingView {
    ListingView { status: ListingStatus::Sold, ..listing }
}

/// The transaction that a purchase creates: pending, between the buyer and
/// the listing's seller, over the selling price that the listing has at this
/// moment.
pub open spec fn purchased(
    listing: ListingView,
    buyer: Seq<char>,
    payment_method: Seq<char>,
    transaction_id: u128,
    now: i64,
) -> TransactionView {
    TransactionView {
        id: transaction_id,
        listing_id: listing.id,
        buyer_id: buyer,
        seller_id: listing.seller_id,
        amount: listing.selling_price,
        status: TransactionStatus::Pending,
        payment_method: Some(payment_method),
        payment_id: None,
        escrow_release_date: None,
        created_at: now,
        completed_at: None,
        cancellation_reason: None,
        dispute_reason: None,
    }
}

/// The notification that tells a seller of a sale.
pub open spec fn sale_notification(listing: ListingView, transaction_id: u128) -> NotificationView {
    NotificationView {
        user_id: listing.seller_id,
        notification_type: "new_sale"@,
        title: "New Sale!"@,
        message: "Your listing has been purchased"@,
        related_listing_id: Some(listing.id),
        related_transaction_id: Some(transaction_id),
    }
}

/// The purchase of a listing by a buyer.
///
/// It fails with `NotFound` where the listing is absent, with `Conflict`
/// unless the listing is active, and with `InvalidOperation` where the buyer
/// is the seller. Otherwise the listing is sold, a pending transaction over
/// its selling price is created, the buyer has a trust record, a neutral
/// one if none was there, and the seller is notified.
pub fn purchase(
    listing: Option<MarketplaceListing>,
    buyer: &str,
    payment_method: &str,
    buyer_trust: Option<MarketplaceTrustScore>,
    transaction_id: u128,
    now: i64,
) -> (r: Result<PurchaseOutcome, MarketError>)
    ensures
        purchase_error(opt_listing(listing), buyer@) is Some ==> r == Err::<
            PurchaseOutcome,
            MarketError,
        >(purchase_error(opt_listing(listing), buyer@)->0),
        purchase_error(opt_listing(listing), buyer@) is None ==> r is Ok && r->Ok_0.listing@ == sold(
            listing->0@,
        ) && r->Ok_0.transaction@ == purchased(
            listing->0@,
            buyer@,
            payment_method@,
            transaction_id,
            now,
        ) && r->Ok_0.notification@ == sale_notification(listing->0@, transaction_id)
            && r->Ok_0.buyer_trust@ == (match buyer_trust {
            Some(t) => t@,
            None => TrustScoreView::neutral(buyer@, now),
        }),
{
    let listing = match listing {
        Some(l) => l,
        None => {
            return Err(MarketError::NotFound(Resource::Listing));
        },
    };
    if listing.status != ListingStatus::Active {
        return Err(MarketError::Conflict(ConflictReason::ListingNotActive));
    }
    if same_text(listing.seller_id.as_str(), buyer) {
        return Err(MarketError::InvalidOperation(InvalidReason::SelfPurchase));
    }
    let transaction = MarketplaceTransaction {
        id: transaction_id,
        listing_id: listing.id,
        buyer_id: buyer.to_owned(),
        seller_id: listing.seller_id.clone(),
        amount: listing.selling_price.copy(),
        status: TransactionStatus::Pending,
        payment_method: Some(payment_method.to_owned()),
        payment_id: None,
        escrow_release_date: None,
        created_at: now,
        completed_at: None,
        cancellation_reason: None,
        dispute_reason: None,
    };
    let notification = CreateNotificationRequest {
        user_id: listing.seller_id.clone(),
        notification_type: "new_sale".to_owned(),
        title: "New Sale!".to_owned(),
        message: "Your listing has been purchased".to_owned(),
        related_listing_id: Some(listing.id),
        related_transaction_id: Some(transaction_id),
    };
    let sold_listing = MarketplaceListing { status: ListingStatus::Sold, ..listing };
    let buyer_trust = MarketplaceTrustScore::ensure_trust_score(buyer_trust, buyer, now);
    Ok(PurchaseOutcome { listing: sold_listing, transaction, buyer_trust, notification })
}

/// Why a completion fails, if it does, before any count is touched: the
/// transaction is absent, or the caller is not its buyer, or it is not in
/// escrow, in this order.
pub open spec fn completion_error(transaction: Option<TransactionView>, caller: Seq<char>) -> Option<
    MarketError,
> {
    if transaction is None {
        Some(MarketError::NotFound(Resource::Transaction))
    } else if transaction->0.buyer_id != caller {
        Some(MarketError::Forbidden(ForbiddenReason::NotBuyer))
    } else if transaction->0.status != TransactionStatus::Escrow {
        Some(MarketError::Conflict(ConflictReason::NotInEscrow))
    } else {
        None
    }
}

/// The transaction after its completion at `now`.
pub open spec fn completed(transaction: TransactionView, now: i64) -> TransactionView {
    TransactionView { status: TransactionStatus::Completed, completed_at: Some(now), ..transaction }
}

/// The grant that the completion of a transaction gives to its buyer.
pub open spec fn grant_of(transaction: TransactionView) -> GrantView {
    GrantView {
        listing_id: transaction.listing_id,
        user_id: transaction.buyer_id,
        transaction_id: transaction.id,
    }
}

/// The notification that tells a seller of a completed sale.
pub open spec fn completion_notification(transaction: TransactionView) -> NotificationView {
    NotificationView {
        user_id: transaction.seller_id,
        notification_type: "transaction_completed"@,
        title: "Transaction Completed!"@,
        message: "Your sale has been completed and funds will be released"@,
        related_listing_id: Some(transaction.listing_id),
        related_transaction_id: Some(transaction.id),
    }
}

/// A count of the trust record stands at its maximum, so that one more
/// successful transaction cannot be counted.
pub open spec fn counts_full(trust: Option<TrustScoreView>) -> bool {
    trust is Some && (trust->0.total_transactions == i32::MAX || trust->0.successful_transactions
        == i32::MAX)
}

/// The completion of a transaction by its buyer.
///
/// It fails with `NotFound` where the transaction is absent, with
/// `Forbidden` where the caller is not the buyer, with `Conflict` unless
/// the transaction is in escrow, and with `Internal` where the seller's
/// counts are full. Otherwise the transaction is completed at `now`, the
/// buyer is granted access to the secret, one more successful transaction
/// is counted for the seller and the seller's score recomputed over
/// `seller_reviews`, and the seller is notified.
pub fn complete(
    transaction: Option<MarketplaceTransaction>,
    caller: &str,
    seller_trust: Option<MarketplaceTrustScore>,
    seller_reviews: ReviewAggregate,
    now: i64,
) -> (r: Result<CompletionOutcome, MarketError>)
    ensures
        completion_error(opt_transaction(transaction), caller@) is Some ==> r == Err::<
            CompletionOutcome,
            MarketError,
        >(completion_error(opt_transaction(transaction), caller@)->0),
        completion_error(opt_transaction(transaction), caller@) is None && counts_full(
            opt_trust(seller_trust),
        ) ==> r == Err::<CompletionOutcome, MarketError>(
            MarketError::Internal(InternalReason::CounterOverflow),
        ),
        completion_error(opt_transaction(transaction), caller@) is None && !counts_full(
            opt_trust(seller_trust),
        ) ==> r is Ok && r->Ok_0.transaction@ == completed(transaction->0@, now) && r->Ok_0.grant@
            == grant_of(transaction->0@) && r->Ok_0.notification@ == completion_notification(
            transaction->0@,
        ) && opt_trust(r->Ok_0.seller_trust) == (match seller_trust {
            Some(t) => Some(t@.counted(true).recomputed(seller_reviews, now)),
            None => None,
        }),
{
    let transaction = match transaction {
        Some(t) => t,
        None => {
            return Err(MarketError::NotFound(Resource::Transaction));
        },
    };
    if !same_text(transaction.buyer_id.as_str(), caller) {
        return Err(MarketError::Forbidden(ForbiddenReason::NotBuyer));
    }
    if transaction.status != TransactionStatus::Escrow {
        return Err(MarketError::Conflict(ConflictReason::NotInEscrow));
    }
    let seller_trust = match seller_trust {
        Some(trust) => {
            match trust.update_trust_score_after_transaction(true, seller_reviews, now) {
                Ok(updated) => Some(updated),
                Err(e) => {
                    return Err(e);
                },
            }
        },
        None => None,
    };
    let grant = CouponAccessGrant {
        listing_id: transaction.listing_id,
        user_id: transaction.buyer_id.clone(),
        transaction_id: transaction.id,
    };
    let notification = CreateNotificationRequest {
        user_id: transaction.seller_id.clone(),
        notification_type: "transaction_completed".to_owned(),
        title: "Transaction Completed!".to_owned(),
        message: "Your sale has been completed and funds will be released".to_owned(),
        related_listing_id: Some(transaction.listing_id),
        related_transaction_id: Some(transaction.id),
    };
    let done = MarketplaceTransaction {
        status: TransactionStatus::Completed,
        completed_at: Some(now),
        ..transaction
    };
    Ok(CompletionOutcome { transaction: done, grant, seller_trust, notification })
}

/// The party that a review by `author` is about: the seller where the
/// buyer reviews, the buyer where the seller reviews, and nobody where the
/// author is neither.
pub open spec fn counterpart(transaction: TransactionView, author: Seq<char>) -> Option<Seq<char>> {
    if transaction.buyer_id == author {
        Some(transaction.seller_id)
    } else if transaction.seller_id == author {
        Some(transaction.buyer_id)
    } else {
        None
    }
}

/// Why a review fails, if it does, before any count is touched: the
/// transaction is absent, or not completed, or the author is no party to
/// it, or has reviewed it already, or the rating is not one to five stars,
/// in this order.
pub open spec fn review_error(
    transaction: Option<TransactionView>,
    author: Seq<char>,
    already_reviewed: bool,
    rating: i32,
) -> Option<MarketError> {
    if transaction is None {
        Some(MarketError::NotFound(Resource::Transaction))
    } else if transaction->0.status != TransactionStatus::Completed {
        Some(MarketError::Conflict(ConflictReason::NotCompleted))
    } else if counterpart(transaction->0, author) is None {
        Some(MarketError::Forbidden(ForbiddenReason::NotParty))
    } else if already_reviewed {
        Some(MarketError::Conflict(ConflictReason::AlreadyReviewed))
    } else if !(1 <= rating <= 5) {
        Some(MarketError::InvalidOperation(InvalidReason::RatingOutOfRange))
    } else {
        None
    }
}

/// The reviews of a party with one more rating among them.
pub open spec fn with_rating(reviews: ReviewAggregate, rating: i32) -> ReviewAggregate {
    ReviewAggregate {
        review_count: (reviews.review_count + 1) as i32,
        rating_sum: (reviews.rating_sum + rating) as i64,
    }
}

/// The aggregate cannot take one more rating.
pub open spec fn aggregate_full(reviews: ReviewAggregate, rating: i32) -> bool {
    reviews.review_count == i32::MAX || reviews.rating_sum + rating > i64::MAX
}

/// The review that is created.
pub open spec fn reviewed(
    transaction: TransactionView,
    author: Seq<char>,
    rating: i32,
    review_text: Option<Seq<char>>,
    deal_verified: bool,
    review_id: u128,
    now: i64,
) -> ReviewView {
    ReviewView {
        id: review_id,
        transaction_id: transaction.id,
        reviewer_id: author,
        reviewed_user_id: counterpart(transaction, author)->0,
        rating,
        review_text,
        deal_verified,
        created_at: now,
        is_buyer_review: transaction.buyer_id == author,
    }
}

/// The notification that tells a party of a review.
pub open spec fn review_notification(transaction: TransactionView, author: Seq<char>, rating: i32) -> NotificationView {
    NotificationView {
        user_id: counterpart(transaction, author)->0,
        notification_type: "new_review"@,
        title: "New Review Received"@,
        message: "You received a "@ + decimal_text(rating as int) + "-star review"@,
        related_listing_id: None,
        related_transaction_id: Some(transaction.id),
    }
}

/// The party of a transaction that a review by `author` is about.
pub fn reviewed_party(transaction: &MarketplaceTransaction, author: &str) -> (party: Option<String>)
    ensures
        opt_text(party) == counterpart(transaction@, author@),
{
    if same_text(transaction.buyer_id.as_str(), author) {
        Some(transaction.seller_id.clone())
    } else if same_text(transaction.seller_id.as_str(), author) {
        Some(transaction.buyer_id.clone())
    } else {
        None
    }
}

/// The review of a completed transaction by one of its parties.
///
/// `already_reviewed` says whether the store holds a review of this
/// transaction by this author; `reviewed_trust` and `reviewed_reviews`
/// are the trust record and the reviews of the other party as they stand
/// before this review.
///
/// It fails as `review_error` says, and with `Internal` where the counts of
/// the reviews are full. Otherwise the review is created, the score of the
/// reviewed party is recomputed over their reviews with this one among
/// them, and the party is notified.
pub fn review(
    transaction: Option<&MarketplaceTransaction>,
    author: &str,
    rating: i32,
    review_text: Option<String>,
    deal_verified: bool,
    already_reviewed: bool,
    reviewed_trust: Option<MarketplaceTrustScore>,
    reviewed_reviews: ReviewAggregate,
    review_id: u128,
    now: i64,
) -> (r: Result<ReviewOutcome, MarketError>)
    ensures
        ({
            let tx = match transaction {
                Some(t) => Some(t@),
                None => None,
            };
            let error = review_error(tx, author@, already_reviewed, rating);
            &&& error is Some ==> r == Err::<ReviewOutcome, MarketError>(error->0)
            &&& error is None && aggregate_full(reviewed_reviews, rating) ==> r == Err::<
                ReviewOutcome,
                MarketError,
            >(MarketError::Internal(InternalReason::CounterOverflow))
            &&& error is None && !aggregate_full(reviewed_reviews, rating) ==> r is Ok
                && r->Ok_0.review@ == reviewed(
                tx->0,
                author@,
                rating,
                opt_text(review_text),
                deal_verified,
                review_id,
                now,
            ) && r->Ok_0.notification@ == review_notification(tx->0, author@, rating)
                && opt_trust(r->Ok_0.reviewed_trust) == (match reviewed_trust {
                Some(t) => Some(t@.recomputed(with_rating(reviewed_reviews, rating), now)),
                None => None,
            })
        }),
{
    let transaction = match transaction {
        Some(t) => t,
        None => {
            return Err(MarketError::NotFound(Resource::Transaction));
        },
    };
    if transaction.status != TransactionStatus::Completed {
        return Err(MarketError::Conflict(ConflictReason::NotCompleted));
    }
    let is_buyer_review = same_text(transaction.buyer_id.as_str(), author);
    let reviewed_user = match reviewed_party(transaction, author) {
        Some(user) => user,
        None => {
            return Err(MarketError::Forbidden(ForbiddenReason::NotParty));
        },
    };
    if already_reviewed {
        return Err(MarketError::Conflict(ConflictReason::AlreadyReviewed));
    }
    if rating < 1 || rating > 5 {
        return Err(MarketError::InvalidOperation(InvalidReason::RatingOutOfRange));
    }
    if reviewed_reviews.review_count == i32::MAX || reviewed_reviews.rating_sum > i64::MAX
        - rating as i64 {
        return Err(MarketError::Internal(InternalReason::CounterOverflow));
    }
    let reviews = ReviewAggregate {
        review_count: reviewed_reviews.review_count + 1,
        rating_sum: reviewed_reviews.rating_sum + rating as i64,
    };
    let reviewed_trust = match reviewed_trust {
        Some(trust) => Some(trust.recalculate_trust_score(reviews, now)),
        None => None,
    };
    let mut message = "You received a ".to_owned();
    push_decimal(&mut message, rating as u128);
    message.push_str("-star review");
    let notification = CreateNotificationRequest {
        user_id: reviewed_user.clone(),
        notification_type: "new_review".to_owned(),
        title: "New Review Received".to_owned(),
        message,
        related_listing_id: None,
        related_transaction_id: Some(transaction.id),
    };
    let review = MarketplaceReview {
        id: review_id,
        transaction_id: transaction.id,
        reviewer_id: author.to_owned(),
        reviewed_user_id: reviewed_user,
        rating,
        review_text,
        deal_verified,
        created_at: now,
        is_buyer_review,
    };
    Ok(ReviewOutcome { review, reviewed_trust, notification })
}


/// The views of a list of reviews.
pub open spec fn review_views(v: Seq<MarketplaceReview>) -> Seq<ReviewView> {
    Seq::new(v.len(), |i: int| v[i]@)
}

/// Some review of the list is a review of this transaction by this
/// author.
pub open spec fn has_reviewed(reviews: Seq<ReviewView>, transaction_id: u128, author: Seq<char>) -> bool {
    exists|i: int|
        0 <= i < reviews.len() && (#[trigger] reviews[i]).transaction_id == transaction_id
            && reviews[i].reviewer_id == author
}

/// No author has reviewed a transaction twice.
pub open spec fn reviews_unique(reviews: Seq<ReviewView>) -> bool {
    forall|i: int, j: int|
        0 <= i < j < reviews.len() ==> !((#[trigger] reviews[i]).transaction_id == (
        #[trigger] reviews[j]).transaction_id && reviews[i].reviewer_id == reviews[j].reviewer_id)
}

/// Whether some review of the list is a review of this transaction by this
/// author.
pub fn already_reviewed(reviews: &Vec<MarketplaceReview>, transaction_id: u128, author: &str) -> (found:
    bool)
    ensures
        found == has_reviewed(review_views(reviews@), transaction_id, author@),
{
    let mut i: usize = 0;
    while i < reviews.len()
        invariant
            i <= reviews.len(),
            forall|j: int|
                0 <= j < i ==> !((#[trigger] review_views(reviews@)[j]).transaction_id
                    == transaction_id && review_views(reviews@)[j].reviewer_id == author@),
        decreases reviews.len() - i,
    {
        assert(review_views(reviews@)[i as int] == reviews@[i as int]@);
        if reviews[i].transaction_id == transaction_id && same_text(
            reviews[i].reviewer_id.as_str(),
            author,
        ) {
            return true;
        }
        i += 1;
    }
    false
}

/// The grants after one more has been recorded. A grant for a user and a
/// listing that already have one changes nothing.
pub open spec fn with_grant(grants: Seq<GrantView>, grant: GrantView) -> Seq<GrantView> {
    if has_grant(grants, grant.listing_id, grant.user_id) {
        grants
    } else {
        grants.push(grant)
    }
}

/// Records a grant. A grant for a user and a listing that already have one
/// is not recorded again.
pub fn record_grant(grants: &mut Vec<CouponAccessGrant>, grant: CouponAccessGrant)
    ensures
        grant_views(final(grants)@) == with_grant(grant_views(old(grants)@), grant@),
{
    let ghost before = grant_views(grants@);
    if !holds_grant(grants, grant.listing_id, grant.user_id.as_str()) {
        grants.push(grant);
        assert(grant_views(grants@) =~= before.push(grant@));
    }
}

/// The steps that a transaction takes without its buyer: all that
/// `may_become` allows but the completion out of escrow, which is the
/// buyer's to make.
pub open spec fn may_be_moved(from: TransactionStatus, next: TransactionStatus) -> bool {
    from.may_become(next) && !(from == TransactionStatus::Escrow && next
        == TransactionStatus::Completed)
}

/// Why a change of status fails, if it does.
pub open spec fn transition_error(transaction: TransactionView, next: TransactionStatus) -> Option<
    MarketError,
> {
    if may_be_moved(transaction.status, next) {
        None
    } else {
        Some(MarketError::Conflict(ConflictReason::TransitionNotAllowed))
    }
}

/// The transaction after a change of status at `now`. A transaction that
/// becomes completed keeps the instant of an earlier completion, or takes
/// `now`.
pub open spec fn moved(transaction: TransactionView, next: TransactionStatus, now: i64) -> TransactionView {
    TransactionView {
        status: next,
        completed_at: if next == TransactionStatus::Completed && transaction.completed_at is None {
            Some(now)
        } else {
            transaction.completed_at
        },
        ..transaction
    }
}

/// Whether a user is the buyer or the seller of a transaction.
pub open spec fn is_party(transaction: TransactionView, user: Seq<char>) -> bool {
    transaction.buyer_id == user || transaction.seller_id == user
}

impl MarketplaceTransaction {
    /// Changes the status of the transaction along one of the steps that
    /// `may_be_moved` allows, and fails with `Conflict` for any other step.
    /// The completion of a transaction in escrow is not among them: it is
    /// the buyer's, through `complete`.
    pub fn transition(self, next: TransactionStatus, now: i64) -> (r: Result<
        MarketplaceTransaction,
        MarketError,
    >)
        ensures
            transition_error(self@, next) is Some ==> r == Err::<
                MarketplaceTransaction,
                MarketError,
            >(transition_error(self@, next)->0),
            transition_error(self@, next) is None ==> r is Ok && r->Ok_0@ == moved(self@, next, now),
    {
        let by_buyer = self.status == TransactionStatus::Escrow && next
            == TransactionStatus::Completed;
        if by_buyer || !self.status.can_become(next) {
            return Err(MarketError::Conflict(ConflictReason::TransitionNotAllowed));
        }
        let completed_at = match (next, self.completed_at) {
            (TransactionStatus::Completed, None) => Some(now),
            (_, at) => at,
        };
        Ok(MarketplaceTransaction { status: next, completed_at, ..self })
    }

    /// The payment provider has confirmed the hold: a pending transaction
    /// moves into escrow.
    pub fn confirm_escrow(self, now: i64) -> (r: Result<MarketplaceTransaction, MarketError>)
        ensures
            self.status != TransactionStatus::Pending ==> r == Err::<
                MarketplaceTransaction,
                MarketError,
            >(MarketError::Conflict(ConflictReason::TransitionNotAllowed)),
            self.status == TransactionStatus::Pending ==> r is Ok && r->Ok_0@ == moved(
                self@,
                TransactionStatus::Escrow,
                now,
            ),
    {
        self.transition(TransactionStatus::Escrow, now)
    }

    /// One of the parties cancels the transaction, which must be pending or
    /// in escrow. Anyone else is refused with `Forbidden`.
    pub fn cancel(self, caller: &str, request: CancelTransactionRequest, now: i64) -> (r: Result<
        MarketplaceTransaction,
        MarketError,
    >)
        ensures
            !is_party(self@, caller@) ==> r == Err::<MarketplaceTransaction, MarketError>(
                MarketError::Forbidden(ForbiddenReason::NotParty),
            ),
            is_party(self@, caller@) && !self.status.may_become(TransactionStatus::Cancelled) ==> r
                == Err::<MarketplaceTransaction, MarketError>(
                MarketError::Conflict(ConflictReason::TransitionNotAllowed),
            ),
            is_party(self@, caller@) && self.status.may_become(TransactionStatus::Cancelled) ==> r is Ok
                && r->Ok_0@ == (TransactionView {
                cancellation_reason: Some(request.reason@),
                ..moved(self@, TransactionStatus::Cancelled, now)
            }),
    {
        if !same_text(self.buyer_id.as_str(), caller) && !same_text(self.seller_id.as_str(), caller) {
            return Err(MarketError::Forbidden(ForbiddenReason::NotParty));
        }
        match self.transition(TransactionStatus::Cancelled, now) {
            Ok(t) => Ok(MarketplaceTransaction { cancellation_reason: Some(request.reason), ..t }),
            Err(e) => Err(e),
        }
    }

    /// One of the parties disputes the transaction, which must be in escrow
    /// or completed. Anyone else is refused with `Forbidden`.
    pub fn dispute(self, caller: &str, request: DisputeTransactionRequest, now: i64) -> (r: Result<
        MarketplaceTransaction,
        MarketError,
    >)
        ensures
            !is_party(self@, caller@) ==> r == Err::<MarketplaceTransaction, MarketError>(
                MarketError::Forbidden(ForbiddenReason::NotParty),
            ),
            is_party(self@, caller@) && !self.status.may_become(TransactionStatus::Disputed) ==> r
                == Err::<MarketplaceTransaction, MarketError>(
                MarketError::Conflict(ConflictReason::TransitionNotAllowed),
            ),
            is_party(self@, caller@) && self.status.may_become(TransactionStatus::Disputed) ==> r is Ok
                && r->Ok_0@ == (TransactionView {
                dispute_reason: Some(request.reason@),
                ..moved(self@, TransactionStatus::Disputed, now)
            }),
    {
        if !same_text(self.buyer_id.as_str(), caller) && !same_text(self.seller_id.as_str(), caller) {
            return Err(MarketError::Forbidden(ForbiddenReason::NotParty));
        }
        match self.transition(TransactionStatus::Disputed, now) {
            Ok(t) => Ok(MarketplaceTransaction { dispute_reason: Some(request.reason), ..t }),
            Err(e) => Err(e),
        }
    }

    /// Applies a change that names the new status by its name in the store.
    /// A request without a status, or with a name that is none, is refused
    /// with `InvalidOperation`. The reasons of the request are taken over
    /// where they are given.
    pub fn apply_update(self, request: UpdateTransactionRequest, now: i64) -> (r: Result<
        MarketplaceTransaction,
        MarketError,
    >)
        ensures
            ({
                let next = match request.status {
                    Some(name) => TransactionStatus::named(name@),
                    None => None,
                };
                &&& next is None ==> r == Err::<MarketplaceTransaction, MarketError>(
                    MarketError::InvalidOperation(InvalidReason::UnknownStatus),
                )
                &&& next is Some && !may_be_moved(self.status, next->0) ==> r == Err::<
                    MarketplaceTransaction,
                    MarketError,
                >(MarketError::Conflict(ConflictReason::TransitionNotAllowed))
                &&& next is Some && may_be_moved(self.status, next->0) ==> r is Ok && r->Ok_0@ == (
                TransactionView {
                    cancellation_reason: if request.cancellation_reason is Some {
                        opt_text(request.cancellation_reason)
                    } else {
                        self@.cancellation_reason
                    },
                    dispute_reason: if request.dispute_reason is Some {
                        opt_text(request.dispute_reason)
                    } else {
                        self@.dispute_reason
                    },
                    ..moved(self@, next->0, now)
                })
            }),
    {
        let next = match &request.status {
            Some(name) => TransactionStatus::parse(name.as_str()),
            None => None,
        };
        let next = match next {
            Some(n) => n,
            None => {
                return Err(MarketError::InvalidOperation(InvalidReason::UnknownStatus));
            },
        };
        let moved = match self.transition(next, now) {
            Ok(t) => t,
            Err(e) => {
                return Err(e);
            },
        };
        let cancellation_reason = match request.cancellation_reason {
            Some(reason) => Some(reason),
            None => moved.cancellation_reason,
        };
        let dispute_reason = match request.dispute_reason {
            Some(reason) => Some(reason),
            None => moved.dispute_reason,
        };
        Ok(
            MarketplaceTransaction {
                id: moved.id,
                listing_id: moved.listing_id,
                buyer_id: moved.buyer_id,
                seller_id: moved.seller_id,
                amount: moved.amount,
                status: moved.status,
                payment_method: moved.payment_method,
                payment_id: moved.payment_id,
                escrow_release_date: moved.escrow_release_date,
                created_at: moved.created_at,
                completed_at: moved.completed_at,
                cancellation_reason,
                dispute_reason,
            },
        )
    }
}

/// A purchase changes nothing of a listing but its status, which goes from
/// active to sold: the one step that the status of a listing takes.
pub proof fn lemma_purchase_sells_active_listing(listing: ListingView, buyer: Seq<char>)
    requires
        purchase_error(Some(listing), buyer) is None,
    ensures
        listing.status == ListingStatus::Active,
        sold(listing).status == ListingStatus::Sold,
        listing.status.steps_to(sold(listing).status),
        sold(listing) == (ListingView { status: sold(listing).status, ..listing }),
{
}

/// The results of purchase attempts on one listing, made one after the
/// other by these buyers, each attempt finding the listing as the attempts
/// before have left it. A result of `None` is a purchase that succeeded.
pub open spec fn attempts(listing: ListingView, buyers: Seq<Seq<char>>) -> Seq<Option<MarketError>>
    decreases buyers.len(),
{
    if buyers.len() == 0 {
        Seq::empty()
    } else {
        let first = purchase_error(Some(listing), buyers[0]);
        let after = if first is None {
            sold(listing)
        } else {
            listing
        };
        seq![first] + attempts(after, buyers.drop_first())
    }
}

/// The listing after purchase attempts by these buyers, made one after the
/// other.
pub open spec fn listing_after(listing: ListingView, buyers: Seq<Seq<char>>) -> ListingView
    decreases buyers.len(),
{
    if buyers.len() == 0 {
        listing
    } else if purchase_error(Some(listing), buyers[0]) is None {
        listing_after(sold(listing), buyers.drop_first())
    } else {
        listing_after(listing, buyers.drop_first())
    }
}

/// How many of the attempts succeeded.
pub open spec fn successes(results: Seq<Option<MarketError>>) -> nat
    decreases results.len(),
{
    if results.len() == 0 {
        0
    } else {
        successes(results.drop_first()) + if results[0] is None {
            1nat
        } else {
            0
        }
    }
}

/// No attempt on a listing that is not active succeeds: all of them find a
/// conflict.
pub proof fn lemma_attempts_on_inactive_listing(listing: ListingView, buyers: Seq<Seq<char>>)
    requires
        listing.status != ListingStatus::Active,
    ensures
        attempts(listing, buyers).len() == buyers.len(),
        forall|i: int|
            0 <= i < buyers.len() ==> #[trigger] attempts(listing, buyers)[i] == Some(
                MarketError::Conflict(ConflictReason::ListingNotActive),
            ),
        successes(attempts(listing, buyers)) == 0,
        listing_after(listing, buyers) == listing,
    decreases buyers.len(),
{
    if buyers.len() > 0 {
        lemma_attempts_on_inactive_listing(listing, buyers.drop_first());
        let rest = attempts(listing, buyers.drop_first());
        assert(attempts(listing, buyers).drop_first() =~= rest);
        assert forall|i: int| 0 <= i < buyers.len() implies #[trigger] attempts(listing, buyers)[i]
            == Some(MarketError::Conflict(ConflictReason::ListingNotActive)) by {
            if i > 0 {
                assert(attempts(listing, buyers)[i] == rest[i - 1]);
            }
        }
    }
}

/// Of several buyers who attempt to purchase one active listing, none of
/// them its seller, exactly one succeeds, the first, and every other one
/// finds a conflict; the listing is sold once, to the first.
pub proof fn lemma_one_purchase_wins(listing: ListingView, buyers: Seq<Seq<char>>)
    requires
        listing.status == ListingStatus::Active,
        buyers.len() >= 1,
        forall|i: int| 0 <= i < buyers.len() ==> #[trigger] buyers[i] != listing.seller_id,
    ensures
        attempts(listing, buyers).len() == buyers.len(),
        attempts(listing, buyers)[0] is None,
        forall|i: int|
            1 <= i < buyers.len() ==> #[trigger] attempts(listing, buyers)[i] == Some(
                MarketError::Conflict(ConflictReason::ListingNotActive),
            ),
        successes(attempts(listing, buyers)) == 1,
        listing_after(listing, buyers) == sold(listing),
{
    lemma_attempts_on_inactive_listing(sold(listing), buyers.drop_first());
    let rest = attempts(sold(listing), buyers.drop_first());
    assert(attempts(listing, buyers).drop_first() =~= rest);
    assert forall|i: int| 1 <= i < buyers.len() implies #[trigger] attempts(listing, buyers)[i]
        == Some(MarketError::Conflict(ConflictReason::ListingNotActive)) by {
        assert(attempts(listing, buyers)[i] == rest[i - 1]);
    }
}

/// The amount of a transaction is the selling price that the listing had
/// when it was bought, and it stays so through escrow and completion and
/// every other change of status.
pub proof fn lemma_amount_is_price_at_purchase(
    listing: ListingView,
    buyer: Seq<char>,
    payment_method: Seq<char>,
    transaction_id: u128,
    bought: i64,
    next: TransactionStatus,
    later: i64,
)
    ensures
        purchased(listing, buyer, payment_method, transaction_id, bought).amount
            == listing.selling_price,
        forall|t: TransactionView| #[trigger] completed(t, later).amount == t.amount,
        forall|t: TransactionView| #[trigger] moved(t, next, later).amount == t.amount,
{
}

/// The transactions that the machine makes are well formed: a purchase
/// that succeeds creates a well-formed transaction, and completion and
/// every allowed change of status keep it so.
pub proof fn lemma_transactions_stay_well_formed(
    listing: ListingView,
    buyer: Seq<char>,
    payment_method: Seq<char>,
    transaction_id: u128,
    transaction: TransactionView,
    next: TransactionStatus,
    now: i64,
)
    ensures
        purchase_error(Some(listing), buyer) is None ==> purchased(
            listing,
            buyer,
            payment_method,
            transaction_id,
            now,
        ).well_formed(),
        transaction.well_formed() ==> completed(transaction, now).well_formed(),
        transaction.well_formed() && transaction.status.may_become(next) ==> moved(
            transaction,
            next,
            now,
        ).well_formed(),
        transaction.has_completed() ==> moved(transaction, next, now).has_completed(),
{
}

/// A completion changes the status and the instant of completion of a
/// transaction and nothing else: its identifier, its listing, its parties
/// and its amount stay, and it is the seller who is notified of it.
pub proof fn lemma_completion_keeps_the_transaction(transaction: TransactionView, now: i64)
    ensures
        completed(transaction, now).status == TransactionStatus::Completed,
        completed(transaction, now).completed_at == Some(now),
        completed(transaction, now) == (TransactionView {
            status: TransactionStatus::Completed,
            completed_at: Some(now),
            ..transaction
        }),
        completed(transaction, now).id == transaction.id,
        completed(transaction, now).listing_id == transaction.listing_id,
        completed(transaction, now).buyer_id == transaction.buyer_id,
        completed(transaction, now).seller_id == transaction.seller_id,
        completed(transaction, now).amount == transaction.amount,
        completion_notification(transaction).user_id == transaction.seller_id,
        completion_notification(transaction).related_transaction_id == Some(transaction.id),
        grant_of(transaction).user_id == transaction.buyer_id,
        grant_of(transaction).listing_id == transaction.listing_id,
{
}

/// A transaction that is pending or in escrow has not been completed.
pub proof fn lemma_not_completed_before_completion(transaction: TransactionView)
    requires
        transaction.well_formed(),
        transaction.status == TransactionStatus::Pending || transaction.status
            == TransactionStatus::Escrow,
    ensures
        !transaction.has_completed(),
{
}

/// Completion keeps every grant on a completed transaction: where the
/// grants stood so before, they stand so after the transaction at `place`
/// has been completed and its grant recorded.
pub proof fn lemma_completion_backs_its_grant(
    grants: Seq<GrantView>,
    transactions: Seq<TransactionView>,
    place: int,
    now: i64,
)
    requires
        grants_backed(grants, transactions),
        0 <= place < transactions.len(),
    ensures
        grants_backed(
            with_grant(grants, grant_of(transactions[place])),
            transactions.update(place, completed(transactions[place], now)),
        ),
{
    let after = transactions.update(place, completed(transactions[place], now));
    let new_grants = with_grant(grants, grant_of(transactions[place]));
    assert forall|i: int| 0 <= i < new_grants.len() implies is_backed(
        #[trigger] new_grants[i],
        after,
    ) by {
        if i < grants.len() {
            assert(new_grants[i] == grants[i]);
            assert(is_backed(grants[i], transactions));
            let j = choose|j: int|
                0 <= j < transactions.len() && backs(#[trigger] transactions[j], grants[i]);
            assert(backs(after[j], new_grants[i]));
        } else {
            assert(new_grants[i] == grant_of(transactions[place]));
            assert(backs(after[place], new_grants[i]));
        }
    }
}

/// A purchase keeps every grant on a completed transaction: the new
/// transaction joins the others, which stay as they are.
pub proof fn lemma_purchase_keeps_grants_backed(
    grants: Seq<GrantView>,
    transactions: Seq<TransactionView>,
    bought: TransactionView,
)
    requires
        grants_backed(grants, transactions),
    ensures
        grants_backed(grants, transactions.push(bought)),
{
    let after = transactions.push(bought);
    assert forall|i: int| 0 <= i < grants.len() implies is_backed(#[trigger] grants[i], after) by {
        let grant = grants[i];
        assert(is_backed(grant, transactions));
        let j = choose|j: int|
            0 <= j < transactions.len() && backs(#[trigger] transactions[j], grant);
        assert(backs(after[j], grant));
    }
}

/// Every grant stays on a completed transaction where a transaction is
/// replaced by one with the same identifier, listing and buyer that has
/// been completed if the first had been. Cancelling, disputing and every
/// other change of status replace a transaction so.
pub proof fn lemma_replacement_keeps_grants_backed(
    grants: Seq<GrantView>,
    transactions: Seq<TransactionView>,
    place: int,
    changed: TransactionView,
)
    requires
        grants_backed(grants, transactions),
        0 <= place < transactions.len(),
        changed.id == transactions[place].id,
        changed.listing_id == transactions[place].listing_id,
        changed.buyer_id == transactions[place].buyer_id,
        transactions[place].has_completed() ==> changed.has_completed(),
    ensures
        grants_backed(grants, transactions.update(place, changed)),
{
    let after = transactions.update(place, changed);
    assert forall|i: int| 0 <= i < grants.len() implies is_backed(#[trigger] grants[i], after) by {
        let grant = grants[i];
        assert(is_backed(grant, transactions));
        let j = choose|j: int|
            0 <= j < transactions.len() && backs(#[trigger] transactions[j], grant);
        assert(backs(after[j], grant));
    }
}

/// A change of status keeps every grant on a completed transaction: a
/// transaction that has been completed once stays so, whatever becomes of
/// it.
pub proof fn lemma_change_keeps_grants_backed(
    grants: Seq<GrantView>,
    transactions: Seq<TransactionView>,
    place: int,
    next: TransactionStatus,
    now: i64,
)
    requires
        grants_backed(grants, transactions),
        0 <= place < transactions.len(),
    ensures
        grants_backed(grants, transactions.update(place, moved(transactions[place], next, now))),
{
    let after = transactions.update(place, moved(transactions[place], next, now));
    assert forall|i: int| 0 <= i < grants.len() implies is_backed(#[trigger] grants[i], after) by {
        let grant = grants[i];
        assert(is_backed(grant, transactions));
        let j = choose|j: int|
            0 <= j < transactions.len() && backs(#[trigger] transactions[j], grant);
        assert(backs(after[j], grant));
    }
}

/// Recording a grant twice is recording it once.
pub proof fn lemma_grant_is_idempotent(grants: Seq<GrantView>, grant: GrantView)
    ensures
        with_grant(with_grant(grants, grant), grant) == with_grant(grants, grant),
{
    if !has_grant(grants, grant.listing_id, grant.user_id) {
        let once = grants.push(grant);
        assert(once[grants.len() as int] == grant);
        assert(has_grant(once, grant.listing_id, grant.user_id));
    }
}

/// A review that the machine accepts keeps the reviews unique: where no
/// author had reviewed a transaction twice, and this author had not
/// reviewed this transaction, none has done so afterwards.
pub proof fn lemma_reviews_stay_unique(reviews: Seq<ReviewView>, review: ReviewView)
    requires
        reviews_unique(reviews),
        !has_reviewed(reviews, review.transaction_id, review.reviewer_id),
    ensures
        reviews_unique(reviews.push(review)),
{
    let after = reviews.push(review);
    assert forall|i: int, j: int| 0 <= i < j < after.len() implies !((#[trigger] after[i]).transaction_id
        == (#[trigger] after[j]).transaction_id && after[i].reviewer_id == after[j].reviewer_id) by {
        if j < reviews.len() {
            assert(after[i] == reviews[i] && after[j] == reviews[j]);
        } else {
            assert(after[i] == reviews[i]);
        }
    }
}

} // verus!
