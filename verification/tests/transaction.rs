use marketplace::decimal::Decimal;
use marketplace::error::{
    ConflictReason, ForbiddenReason, InternalReason, InvalidReason, MarketError, Resource,
};
use marketplace::model::{
    CancelTransactionRequest, CouponAccessGrant, CreateNotificationRequest,
    DisputeTransactionRequest, ListingStatus, ListingType, MarketplaceListing, MarketplaceReview,
    MarketplaceTransaction, TransactionStatus, UpdateTransactionRequest,
};
use marketplace::reputation::{MarketplaceTrustScore, ReviewAggregate};
use marketplace::transaction::{
    already_reviewed, complete, purchase, record_grant, review, reviewed_party,
};

fn listing(status: ListingStatus) -> MarketplaceListing {
    MarketplaceListing {
        id: 100,
        seller_id: "seller".to_string(),
        listing_type: ListingType::DiscountCode,
        title: "Ten percent off".to_string(),
        description: Some("a code".to_string()),
        category: "food".to_string(),
        brand_name: None,
        original_value: Some(Decimal::from_i64(2500, 2)),
        selling_price: Decimal::from_i64(2000, 2),
        discount_percentage: Some(Decimal::from_i64(200, 1)),
        expiration_date: None,
        proof_image_url: None,
        status,
        created_at: 10,
        updated_at: 11,
        view_count: 3,
        tags: vec!["a".to_string()],
        is_verified: false,
        verification_date: None,
    }
}

fn transaction(status: TransactionStatus) -> MarketplaceTransaction {
    MarketplaceTransaction {
        id: 200,
        listing_id: 100,
        buyer_id: "buyer".to_string(),
        seller_id: "seller".to_string(),
        amount: Decimal::from_i64(2000, 2),
        status,
        payment_method: Some("card".to_string()),
        payment_id: None,
        escrow_release_date: None,
        created_at: 20,
        completed_at: if status == TransactionStatus::Completed { Some(30) } else { None },
        cancellation_reason: None,
        dispute_reason: None,
    }
}

fn no_reviews() -> ReviewAggregate {
    ReviewAggregate { review_count: 0, rating_sum: 0 }
}

#[test]
fn purchase_of_an_absent_listing() {
    assert_eq!(
        purchase(None, "buyer", "card", None, 1, 2),
        Err(MarketError::NotFound(Resource::Listing))
    );
}

#[test]
fn purchase_of_a_listing_that_is_not_active() {
    for status in [ListingStatus::Sold, ListingStatus::Expired, ListingStatus::Suspended] {
        assert_eq!(
            purchase(Some(listing(status)), "buyer", "card", None, 1, 2),
            Err(MarketError::Conflict(ConflictReason::ListingNotActive))
        );
        // the state of the listing is looked at before the buyer
        assert_eq!(
            purchase(Some(listing(status)), "seller", "card", None, 1, 2),
            Err(MarketError::Conflict(ConflictReason::ListingNotActive))
        );
    }
}

#[test]
fn purchase_of_the_own_listing() {
    assert_eq!(
        purchase(Some(listing(ListingStatus::Active)), "seller", "card", None, 1, 2),
        Err(MarketError::InvalidOperation(InvalidReason::SelfPurchase))
    );
}

#[test]
fn purchase_sells_the_listing_and_opens_a_transaction() {
    let before = listing(ListingStatus::Active);
    let outcome = purchase(Some(before.clone()), "buyer", "paypal", None, 200, 1_000).unwrap();
    let mut sold = before.clone();
    sold.status = ListingStatus::Sold;
    assert_eq!(outcome.listing, sold);
    assert_eq!(
        outcome.transaction,
        MarketplaceTransaction {
            id: 200,
            listing_id: 100,
            buyer_id: "buyer".to_string(),
            seller_id: "seller".to_string(),
            amount: Decimal::from_i64(2000, 2),
            status: TransactionStatus::Pending,
            payment_method: Some("paypal".to_string()),
            payment_id: None,
            escrow_release_date: None,
            created_at: 1_000,
            completed_at: None,
            cancellation_reason: None,
            dispute_reason: None,
        }
    );
    assert_eq!(
        outcome.notification,
        CreateNotificationRequest {
            user_id: "seller".to_string(),
            notification_type: "new_sale".to_string(),
            title: "New Sale!".to_string(),
            message: "Your listing has been purchased".to_string(),
            related_listing_id: Some(100),
            related_transaction_id: Some(200),
        }
    );
}

#[test]
fn of_two_buyers_only_the_first_wins() {
    let first = purchase(Some(listing(ListingStatus::Active)), "buyer", "card", None, 1, 10).unwrap();
    let second = purchase(Some(first.listing.clone()), "other", "card", None, 2, 10);
    assert_eq!(second, Err(MarketError::Conflict(ConflictReason::ListingNotActive)));
    let third = purchase(Some(first.listing), "third", "card", None, 3, 11);
    assert_eq!(third, Err(MarketError::Conflict(ConflictReason::ListingNotActive)));
}

#[test]
fn amount_is_the_price_at_the_purchase() {
    let mut l = listing(ListingStatus::Active);
    l.selling_price = Decimal::from_i64(1234, 2);
    let outcome = purchase(Some(l), "buyer", "card", None, 1, 10).unwrap();
    let mut later = outcome.listing;
    later.selling_price = Decimal::from_i64(9999, 2);
    let escrow = outcome.transaction.confirm_escrow(11).unwrap();
    let done = complete(Some(escrow), "buyer", None, no_reviews(), 12).unwrap();
    assert_eq!(done.transaction.amount, Decimal::from_i64(1234, 2));
    assert_eq!(later.selling_price, Decimal::from_i64(9999, 2));
}

#[test]
fn completion_fails_in_the_order_of_its_conditions() {
    assert_eq!(
        complete(None, "buyer", None, no_reviews(), 1),
        Err(MarketError::NotFound(Resource::Transaction))
    );
    assert_eq!(
        complete(Some(transaction(TransactionStatus::Escrow)), "seller", None, no_reviews(), 1),
        Err(MarketError::Forbidden(ForbiddenReason::NotBuyer))
    );
    assert_eq!(
        complete(Some(transaction(TransactionStatus::Pending)), "stranger", None, no_reviews(), 1),
        Err(MarketError::Forbidden(ForbiddenReason::NotBuyer))
    );
    for status in [
        TransactionStatus::Pending,
        TransactionStatus::Completed,
        TransactionStatus::Cancelled,
        TransactionStatus::Disputed,
    ] {
        assert_eq!(
            complete(Some(transaction(status)), "buyer", None, no_reviews(), 1),
            Err(MarketError::Conflict(ConflictReason::NotInEscrow))
        );
    }
}

#[test]
fn completion_grants_access_and_recomputes_the_seller() {
    let trust = MarketplaceTrustScore::neutral("seller", 5);
    let reviews = ReviewAggregate { review_count: 1, rating_sum: 5 };
    let outcome =
        complete(Some(transaction(TransactionStatus::Escrow)), "buyer", Some(trust), reviews, 77)
            .unwrap();
    let mut done = transaction(TransactionStatus::Escrow);
    done.status = TransactionStatus::Completed;
    done.completed_at = Some(77);
    assert_eq!(outcome.transaction, done);
    assert_eq!(
        outcome.grant,
        CouponAccessGrant { listing_id: 100, user_id: "buyer".to_string(), transaction_id: 200 }
    );
    let seller = outcome.seller_trust.unwrap();
    assert_eq!(seller.total_transactions, 1);
    assert_eq!(seller.successful_transactions, 1);
    assert_eq!(seller.total_reviews, 1);
    assert_eq!(seller.rating_sum, 5);
    // 50 + 30 + 30 + 1, capped
    assert_eq!(seller.trust_score, 100_000);
    assert_eq!(seller.last_calculated, 77);
    assert_eq!(
        outcome.notification,
        CreateNotificationRequest {
            user_id: "seller".to_string(),
            notification_type: "transaction_completed".to_string(),
            title: "Transaction Completed!".to_string(),
            message: "Your sale has been completed and funds will be released".to_string(),
            related_listing_id: Some(100),
            related_transaction_id: Some(200),
        }
    );
}

#[test]
fn completion_without_a_trust_record_leaves_none() {
    let outcome =
        complete(Some(transaction(TransactionStatus::Escrow)), "buyer", None, no_reviews(), 77)
            .unwrap();
    assert_eq!(outcome.seller_trust, None);
}

#[test]
fn completion_with_full_counts_is_an_error() {
    let mut trust = MarketplaceTrustScore::neutral("seller", 5);
    trust.successful_transactions = i32::MAX;
    assert_eq!(
        complete(Some(transaction(TransactionStatus::Escrow)), "buyer", Some(trust), no_reviews(), 1),
        Err(MarketError::Internal(InternalReason::CounterOverflow))
    );
}

#[test]
fn review_fails_in_the_order_of_its_conditions() {
    let done = transaction(TransactionStatus::Completed);
    let escrow = transaction(TransactionStatus::Escrow);
    assert_eq!(
        review(None, "buyer", 5, None, true, false, None, no_reviews(), 1, 2),
        Err(MarketError::NotFound(Resource::Transaction))
    );
    assert_eq!(
        review(Some(&escrow), "stranger", 9, None, true, true, None, no_reviews(), 1, 2),
        Err(MarketError::Conflict(ConflictReason::NotCompleted))
    );
    assert_eq!(
        review(Some(&done), "stranger", 9, None, true, true, None, no_reviews(), 1, 2),
        Err(MarketError::Forbidden(ForbiddenReason::NotParty))
    );
    assert_eq!(
        review(Some(&done), "buyer", 9, None, true, true, None, no_reviews(), 1, 2),
        Err(MarketError::Conflict(ConflictReason::AlreadyReviewed))
    );
    assert_eq!(
        review(Some(&done), "buyer", 0, None, true, false, None, no_reviews(), 1, 2),
        Err(MarketError::InvalidOperation(InvalidReason::RatingOutOfRange))
    );
    assert_eq!(
        review(Some(&done), "buyer", 6, None, true, false, None, no_reviews(), 1, 2),
        Err(MarketError::InvalidOperation(InvalidReason::RatingOutOfRange))
    );
    let full = ReviewAggregate { review_count: i32::MAX, rating_sum: 0 };
    assert_eq!(
        review(Some(&done), "buyer", 5, None, true, false, None, full, 1, 2),
        Err(MarketError::Internal(InternalReason::CounterOverflow))
    );
}

#[test]
fn review_by_the_buyer_is_about_the_seller() {
    let done = transaction(TransactionStatus::Completed);
    let mut trust = MarketplaceTrustScore::neutral("seller", 5);
    trust.total_transactions = 2;
    trust.successful_transactions = 1;
    let before = ReviewAggregate { review_count: 1, rating_sum: 2 };
    let outcome = review(
        Some(&done),
        "buyer",
        4,
        Some("fine".to_string()),
        true,
        false,
        Some(trust),
        before,
        300,
        40,
    )
    .unwrap();
    assert_eq!(
        outcome.review,
        MarketplaceReview {
            id: 300,
            transaction_id: 200,
            reviewer_id: "buyer".to_string(),
            reviewed_user_id: "seller".to_string(),
            rating: 4,
            review_text: Some("fine".to_string()),
            deal_verified: true,
            created_at: 40,
            is_buyer_review: true,
        }
    );
    let seller = outcome.reviewed_trust.unwrap();
    assert_eq!(seller.total_reviews, 2);
    assert_eq!(seller.rating_sum, 6);
    // 50 + 15 + (3/5)*30 + 2 = 85
    assert_eq!(seller.trust_score, 85_000);
    assert_eq!(
        outcome.notification,
        CreateNotificationRequest {
            user_id: "seller".to_string(),
            notification_type: "new_review".to_string(),
            title: "New Review Received".to_string(),
            message: "You received a 4-star review".to_string(),
            related_listing_id: None,
            related_transaction_id: Some(200),
        }
    );
}

#[test]
fn review_by_the_seller_is_about_the_buyer() {
    let done = transaction(TransactionStatus::Completed);
    let outcome =
        review(Some(&done), "seller", 1, None, false, false, None, no_reviews(), 301, 41).unwrap();
    assert_eq!(outcome.review.reviewed_user_id, "buyer");
    assert_eq!(outcome.review.reviewer_id, "seller");
    assert!(!outcome.review.is_buyer_review);
    assert_eq!(outcome.reviewed_trust, None);
    assert_eq!(outcome.notification.user_id, "buyer");
    assert_eq!(outcome.notification.message, "You received a 1-star review");
    assert_eq!(reviewed_party(&done, "seller"), Some("buyer".to_string()));
    assert_eq!(reviewed_party(&done, "buyer"), Some("seller".to_string()));
    assert_eq!(reviewed_party(&done, "stranger"), None);
}

#[test]
fn one_review_for_each_party_of_a_transaction() {
    let done = transaction(TransactionStatus::Completed);
    let first =
        review(Some(&done), "buyer", 5, None, true, false, None, no_reviews(), 1, 2).unwrap();
    let stored = vec![first.review];
    assert!(already_reviewed(&stored, 200, "buyer"));
    assert!(!already_reviewed(&stored, 200, "seller"));
    assert!(!already_reviewed(&stored, 201, "buyer"));
    let again = review(
        Some(&done),
        "buyer",
        5,
        None,
        true,
        already_reviewed(&stored, 200, "buyer"),
        None,
        no_reviews(),
        2,
        3,
    );
    assert_eq!(again, Err(MarketError::Conflict(ConflictReason::AlreadyReviewed)));
}

#[test]
fn grants_are_recorded_once() {
    let mut grants = Vec::new();
    let g = CouponAccessGrant { listing_id: 1, user_id: "buyer".to_string(), transaction_id: 7 };
    record_grant(&mut grants, g.clone());
    assert_eq!(grants, vec![g.clone()]);
    record_grant(&mut grants, g.clone());
    assert_eq!(grants, vec![g.clone()]);
    let same_pair = CouponAccessGrant { listing_id: 1, user_id: "buyer".to_string(), transaction_id: 8 };
    record_grant(&mut grants, same_pair);
    assert_eq!(grants, vec![g.clone()]);
    let other = CouponAccessGrant { listing_id: 2, user_id: "buyer".to_string(), transaction_id: 9 };
    record_grant(&mut grants, other.clone());
    assert_eq!(grants, vec![g, other]);
}

#[test]
fn allowed_changes_of_status() {
    let (pending, escrow) = (TransactionStatus::Pending, TransactionStatus::Escrow);
    let (completed, cancelled) = (TransactionStatus::Completed, TransactionStatus::Cancelled);
    let disputed = TransactionStatus::Disputed;
    let all = [pending, escrow, completed, cancelled, disputed];
    let allowed = [
        (pending, escrow),
        (pending, cancelled),
        (escrow, completed),
        (escrow, cancelled),
        (escrow, disputed),
        (completed, disputed),
        (disputed, completed),
        (disputed, cancelled),
    ];
    for from in all {
        for to in all {
            let expected = allowed.contains(&(from, to));
            assert_eq!(from.can_become(to), expected);
            let moved = transaction(from).transition(to, 500);
            // the completion out of escrow is the buyer's alone
            if expected && (from, to) != (escrow, completed) {
                let moved = moved.unwrap();
                assert_eq!(moved.status, to);
                assert_eq!(moved.amount, Decimal::from_i64(2000, 2));
                if to == completed {
                    assert!(moved.completed_at.is_some());
                }
            } else {
                assert_eq!(
                    moved,
                    Err(MarketError::Conflict(ConflictReason::TransitionNotAllowed))
                );
            }
        }
        assert!(!from.can_become(pending));
        assert!(!cancelled.can_become(from));
    }
}

#[test]
fn a_dispute_that_is_settled_keeps_the_first_completion() {
    let done = transaction(TransactionStatus::Completed);
    let disputed = done.transition(TransactionStatus::Disputed, 50).unwrap();
    assert_eq!(disputed.completed_at, Some(30));
    let settled = disputed.transition(TransactionStatus::Completed, 60).unwrap();
    assert_eq!(settled.completed_at, Some(30));
    let fresh = transaction(TransactionStatus::Escrow)
        .transition(TransactionStatus::Disputed, 50)
        .unwrap()
        .transition(TransactionStatus::Completed, 60)
        .unwrap();
    assert_eq!(fresh.completed_at, Some(60));
}

#[test]
fn escrow_is_confirmed_from_pending_only() {
    let escrow = transaction(TransactionStatus::Pending).confirm_escrow(5).unwrap();
    assert_eq!(escrow.status, TransactionStatus::Escrow);
    assert_eq!(escrow.completed_at, None);
    assert_eq!(
        transaction(TransactionStatus::Escrow).confirm_escrow(5),
        Err(MarketError::Conflict(ConflictReason::TransitionNotAllowed))
    );
    assert_eq!(
        transaction(TransactionStatus::Completed).confirm_escrow(5),
        Err(MarketError::Conflict(ConflictReason::TransitionNotAllowed))
    );
}

#[test]
fn parties_cancel_before_completion() {
    let request = CancelTransactionRequest { reason: "changed my mind".to_string() };
    let cancelled =
        transaction(TransactionStatus::Escrow).cancel("buyer", request.clone(), 9).unwrap();
    assert_eq!(cancelled.status, TransactionStatus::Cancelled);
    assert_eq!(cancelled.cancellation_reason, Some("changed my mind".to_string()));
    assert_eq!(cancelled.completed_at, None);
    let by_seller =
        transaction(TransactionStatus::Pending).cancel("seller", request.clone(), 9).unwrap();
    assert_eq!(by_seller.status, TransactionStatus::Cancelled);
    assert_eq!(
        transaction(TransactionStatus::Pending).cancel("stranger", request.clone(), 9),
        Err(MarketError::Forbidden(ForbiddenReason::NotParty))
    );
    assert_eq!(
        transaction(TransactionStatus::Completed).cancel("buyer", request, 9),
        Err(MarketError::Conflict(ConflictReason::TransitionNotAllowed))
    );
}

#[test]
fn parties_dispute_in_escrow_or_after_completion() {
    let request =
        DisputeTransactionRequest { reason: "code did not work".to_string(), evidence: None };
    let disputed =
        transaction(TransactionStatus::Completed).dispute("buyer", request.clone(), 9).unwrap();
    assert_eq!(disputed.status, TransactionStatus::Disputed);
    assert_eq!(disputed.dispute_reason, Some("code did not work".to_string()));
    assert_eq!(disputed.completed_at, Some(30));
    assert!(transaction(TransactionStatus::Escrow).dispute("seller", request.clone(), 9).is_ok());
    assert_eq!(
        transaction(TransactionStatus::Pending).dispute("buyer", request.clone(), 9),
        Err(MarketError::Conflict(ConflictReason::TransitionNotAllowed))
    );
    assert_eq!(
        transaction(TransactionStatus::Escrow).dispute("stranger", request, 9),
        Err(MarketError::Forbidden(ForbiddenReason::NotParty))
    );
}

#[test]
fn updates_name_the_status() {
    let update = UpdateTransactionRequest {
        status: Some("escrow".to_string()),
        cancellation_reason: None,
        dispute_reason: None,
    };
    let moved = transaction(TransactionStatus::Pending).apply_update(update, 3).unwrap();
    assert_eq!(moved.status, TransactionStatus::Escrow);
    let update = UpdateTransactionRequest {
        status: Some("cancelled".to_string()),
        cancellation_reason: Some("timeout".to_string()),
        dispute_reason: None,
    };
    let moved = transaction(TransactionStatus::Escrow).apply_update(update.clone(), 3).unwrap();
    assert_eq!(moved.status, TransactionStatus::Cancelled);
    assert_eq!(moved.cancellation_reason, Some("timeout".to_string()));
    assert_eq!(
        transaction(TransactionStatus::Completed).apply_update(update, 3),
        Err(MarketError::Conflict(ConflictReason::TransitionNotAllowed))
    );
    let unknown = UpdateTransactionRequest {
        status: Some("refunded".to_string()),
        cancellation_reason: None,
        dispute_reason: None,
    };
    assert_eq!(
        transaction(TransactionStatus::Escrow).apply_update(unknown, 3),
        Err(MarketError::InvalidOperation(InvalidReason::UnknownStatus))
    );
    let completed = UpdateTransactionRequest {
        status: Some("completed".to_string()),
        cancellation_reason: None,
        dispute_reason: None,
    };
    assert_eq!(
        transaction(TransactionStatus::Escrow).apply_update(completed.clone(), 3),
        Err(MarketError::Conflict(ConflictReason::TransitionNotAllowed))
    );
    assert!(transaction(TransactionStatus::Disputed).apply_update(completed, 3).is_ok());
    let nothing =
        UpdateTransactionRequest { status: None, cancellation_reason: None, dispute_reason: None };
    assert_eq!(
        transaction(TransactionStatus::Escrow).apply_update(nothing, 3),
        Err(MarketError::InvalidOperation(InvalidReason::UnknownStatus))
    );
}

#[test]
fn a_first_purchase_gives_the_buyer_a_trust_record() {
    let outcome =
        purchase(Some(listing(ListingStatus::Active)), "buyer", "card", None, 1, 50).unwrap();
    assert_eq!(outcome.buyer_trust, MarketplaceTrustScore::neutral("buyer", 50));
    assert_eq!(outcome.buyer_trust.trust_score, 50_000);
    let mut known = MarketplaceTrustScore::neutral("buyer", 3);
    known.trust_score = 91_000;
    let outcome =
        purchase(Some(listing(ListingStatus::Active)), "buyer", "card", Some(known.clone()), 1, 50)
            .unwrap();
    assert_eq!(outcome.buyer_trust, known);
}
