use bigdecimal::num_bigint::{BigInt, Sign};
use bigdecimal::BigDecimal;
use marketplace::decimal::Decimal;
use marketplace::duplicate_detector::{DuplicateDetector, ListingCandidate};
use marketplace::error::{
    ConflictReason, ForbiddenReason, InternalReason, InvalidReason, MarketError, Resource,
};
use marketplace::model::{
    CreateListingRequest, CreateReviewRequest, CreateTransactionRequest, ListingStatus,
    ListingType, MarketplaceListing, TransactionStatus, UpdateListingRequest,
};
use marketplace::rate_limiter::RateLimitCounter;
use marketplace::reputation::{MarketplaceTrustScore, ReviewAggregate};
use marketplace::service::{CreateListingOutcome, MarketplaceService, UserRecord};
use marketplace::transaction::record_grant;
use marketplace::vault::{seal, SealedSecret};

fn request(listing_type: ListingType, code: Option<&str>) -> CreateListingRequest {
    CreateListingRequest {
        listing_type,
        title: "Twenty percent off shoes".to_string(),
        description: None,
        category: "fashion".to_string(),
        brand_name: Some("Acme".to_string()),
        original_value: Some(Decimal::from_i64(2500, 2)),
        selling_price: Decimal::from_i64(2000, 2),
        discount_percentage: None,
        expiration_date: Some(9_999),
        proof_image_url: None,
        tags: vec!["shoes".to_string(), "sale".to_string()],
        coupon_code: code.map(|c| c.to_string()),
    }
}

fn created(outcome: CreateListingOutcome) -> marketplace::service::ListingCreated {
    match outcome {
        CreateListingOutcome::Created(c) => c,
        CreateListingOutcome::DuplicateWarning(w) => panic!("unexpected warning {:?}", w),
    }
}

fn no_reviews() -> ReviewAggregate {
    ReviewAggregate { review_count: 0, rating_sum: 0 }
}

fn as_text(d: &Decimal) -> String {
    let sign = if d.negative { Sign::Minus } else { Sign::Plus };
    BigDecimal::new(BigInt::from_slice(sign, &d.magnitude), d.scale).to_string()
}

#[test]
fn a_code_is_listed_bought_completed_and_revealed() {
    let service = MarketplaceService::new();

    // seller S lists a code priced at 20.00 with original value 25.00
    let listed = service.create_listing_at(
        "S",
        request(ListingType::DiscountCode, Some("SHOES-20")),
        None,
        &Vec::new(),
        None,
        0x11,
        1_000,
    );
    assert_eq!(listed.counter, RateLimitCounter { count: 1, window_start: 1_000 });
    let made = created(listed.outcome.unwrap());
    assert_eq!(made.listing.status, ListingStatus::Active);
    assert_eq!(as_text(made.listing.discount_percentage.as_ref().unwrap()), "20.0");
    assert_eq!(made.secret, Some("SHOES-20".to_string()));
    assert_eq!(made.seller_trust, MarketplaceTrustScore::neutral("S", 1_000));
    let stored_secret = seal("ciphertext", "nonce");
    let mut grants = Vec::new();

    // nobody but the seller reads the secret before the purchase is completed
    assert_eq!(
        service.get_coupon_code("B", 0x11, Some("S"), &grants, Some(&stored_secret)),
        Ok(None)
    );

    // buyer B purchases it
    let bought = service.create_transaction_at(
        "B",
        &CreateTransactionRequest { listing_id: 0x11, payment_method: "card".to_string() },
        None,
        Some(made.listing.clone()),
        None,
        0x22,
        2_000,
    );
    let bought = bought.outcome.unwrap();
    assert_eq!(bought.listing.status, ListingStatus::Sold);
    assert_eq!(bought.transaction.status, TransactionStatus::Pending);
    assert_eq!(bought.transaction.amount, Decimal::from_i64(2000, 2));
    assert_eq!(bought.transaction.buyer_id, "B");
    assert_eq!(bought.transaction.seller_id, "S");
    assert_eq!(bought.notification.user_id, "S");
    assert_eq!(bought.buyer_trust, MarketplaceTrustScore::neutral("B", 2_000));

    // still pending: the buyer cannot complete, and cannot read the secret
    assert_eq!(
        marketplace::transaction::complete(
            Some(bought.transaction.clone()),
            "B",
            Some(made.seller_trust.clone()),
            no_reviews(),
            2_500
        ),
        Err(MarketError::Conflict(ConflictReason::NotInEscrow))
    );
    assert_eq!(
        service.get_coupon_code("B", 0x11, Some("S"), &grants, Some(&stored_secret)),
        Ok(None)
    );

    // the transaction moves to escrow, then B completes it
    let escrow = bought.transaction.confirm_escrow(3_000).unwrap();
    assert_eq!(escrow.status, TransactionStatus::Escrow);
    assert_eq!(
        service.get_coupon_code("B", 0x11, Some("S"), &grants, Some(&stored_secret)),
        Ok(None)
    );
    let done = marketplace::transaction::complete(
        Some(escrow),
        "B",
        Some(made.seller_trust),
        no_reviews(),
        4_000,
    )
    .unwrap();
    assert_eq!(done.transaction.status, TransactionStatus::Completed);
    assert_eq!(done.transaction.completed_at, Some(4_000));
    assert_eq!(done.transaction.amount, Decimal::from_i64(2000, 2));

    // S's trust score is recomputed: 50 + 30 for one successful sale of one
    let seller = done.seller_trust.unwrap();
    assert_eq!(seller.total_transactions, 1);
    assert_eq!(seller.successful_transactions, 1);
    assert_eq!(seller.trust_score, 80_000);
    assert_eq!(seller.last_calculated, 4_000);

    // B can now reveal the secret, and so can S; a stranger cannot
    record_grant(&mut grants, done.grant);
    let secret =
        Ok(Some(SealedSecret { ciphertext: "ciphertext".to_string(), nonce: "nonce".to_string() }));
    assert_eq!(service.get_coupon_code("B", 0x11, Some("S"), &grants, Some(&stored_secret)), secret);
    assert_eq!(service.get_coupon_code("S", 0x11, Some("S"), &grants, Some(&stored_secret)), secret);
    assert_eq!(
        service.get_coupon_code("X", 0x11, Some("S"), &grants, Some(&stored_secret)),
        Ok(None)
    );
}

#[test]
fn created_listing_takes_over_the_request() {
    let service = MarketplaceService::new();
    let r = service.create_listing_at(
        "S",
        request(ListingType::DiscountCode, Some("SHOES-20")),
        None,
        &Vec::new(),
        None,
        0x11,
        1_000,
    );
    let made = created(r.outcome.unwrap());
    assert_eq!(
        made.listing,
        MarketplaceListing {
            id: 0x11,
            seller_id: "S".to_string(),
            listing_type: ListingType::DiscountCode,
            title: "Twenty percent off shoes".to_string(),
            description: None,
            category: "fashion".to_string(),
            brand_name: Some("Acme".to_string()),
            original_value: Some(Decimal::from_i64(2500, 2)),
            selling_price: Decimal::from_i64(2000, 2),
            discount_percentage: Some(Decimal::from_i64(200, 1)),
            expiration_date: Some(9_999),
            proof_image_url: None,
            status: ListingStatus::Active,
            created_at: 1_000,
            updated_at: 1_000,
            view_count: 0,
            tags: vec!["shoes".to_string(), "sale".to_string()],
            is_verified: false,
            verification_date: None,
        }
    );
    let print = made.fingerprint.unwrap();
    assert_eq!(print.listing_id, 0x11);
    assert_eq!(
        print.fingerprint,
        DuplicateDetector::generate_fingerprint("shoes20", "fashion", Some("ACME"))
    );
}

#[test]
fn listing_without_original_value_has_no_discount() {
    let service = MarketplaceService::new();
    let mut req = request(ListingType::GiftCard, Some("GIFT"));
    req.original_value = None;
    let made = created(
        service.create_listing_at("S", req, None, &Vec::new(), None, 1, 2).outcome.unwrap(),
    );
    assert_eq!(made.listing.discount_percentage, None);
    // only the code of a discount-code listing is stored
    assert_eq!(made.secret, None);
    assert_eq!(made.fingerprint, None);
}

#[test]
fn discount_code_listing_without_its_code_has_no_secret() {
    let service = MarketplaceService::new();
    let r = service.create_listing_at(
        "S",
        request(ListingType::DiscountCode, None),
        None,
        &Vec::new(),
        None,
        1,
        2,
    );
    assert_eq!(r.counter.count, 1);
    let made = created(r.outcome.unwrap());
    assert_eq!(made.listing.listing_type, ListingType::DiscountCode);
    assert_eq!(made.listing.status, ListingStatus::Active);
    assert_eq!(made.secret, None);
    assert_eq!(made.fingerprint, None);
}

#[test]
fn a_request_for_a_code_listing_is_checked_for_its_code() {
    assert_eq!(
        MarketplaceService::check_listing_request(&request(ListingType::DiscountCode, None)),
        Err(MarketError::InvalidOperation(InvalidReason::MissingCouponCode))
    );
    assert_eq!(
        MarketplaceService::check_listing_request(&request(ListingType::DiscountCode, Some("X"))),
        Ok(())
    );
    assert_eq!(
        MarketplaceService::check_listing_request(&request(ListingType::ReferralLink, None)),
        Ok(())
    );
    assert_eq!(
        MarketplaceService::check_listing_request(&request(ListingType::GiftCard, Some("X"))),
        Ok(())
    );
}

#[test]
fn listing_with_zero_original_value_is_rejected() {
    let service = MarketplaceService::new();
    let mut req = request(ListingType::GiftCard, None);
    req.original_value = Some(Decimal::from_i64(0, 2));
    let r = service.create_listing_at("S", req, None, &Vec::new(), None, 1, 2);
    assert_eq!(
        r.outcome.unwrap_err(),
        MarketError::InvalidOperation(InvalidReason::ZeroOriginalValue)
    );
}

#[test]
fn listing_that_looks_like_another_is_warned_of() {
    let service = MarketplaceService::new();
    let candidates = vec![ListingCandidate {
        id: 9,
        title: "shoes-20 code".to_string(),
        seller_id: "T".to_string(),
        category: "fashion".to_string(),
        brand_name: Some("Acme".to_string()),
        status: ListingStatus::Active,
        seller_username: "tee".to_string(),
    }];
    let r = service.create_listing_at(
        "S",
        request(ListingType::DiscountCode, Some("SHOES-20 CODE")),
        None,
        &candidates,
        None,
        1,
        2,
    );
    match r.outcome.unwrap() {
        CreateListingOutcome::DuplicateWarning(w) => {
            assert_eq!(w.listing_id, "00000000-0000-0000-0000-000000000009");
            assert_eq!(w.seller_username, "tee");
            assert_eq!(w.confidence, 85);
        }
        CreateListingOutcome::Created(c) => panic!("unexpected listing {:?}", c),
    }
    // without candidates the same request goes through
    let again = service.create_listing_at(
        "S",
        request(ListingType::DiscountCode, Some("SHOES-20 CODE")),
        None,
        &Vec::new(),
        None,
        1,
        2,
    );
    assert!(matches!(again.outcome, Ok(CreateListingOutcome::Created(_))));
}

#[test]
fn eleventh_listing_within_the_hour_is_throttled() {
    let service = MarketplaceService::new();
    let full = RateLimitCounter { count: 10, window_start: 1_000 };
    let r = service.create_listing_at(
        "S",
        request(ListingType::DiscountCode, Some("X")),
        Some(full),
        &Vec::new(),
        None,
        1,
        1_600,
    );
    assert_eq!(r.counter, full);
    assert_eq!(r.outcome.unwrap_err(), MarketError::RateLimited { retry_after: 3_000 });
}

#[test]
fn purchases_and_reviews_are_throttled() {
    let service = MarketplaceService::new();
    let full = RateLimitCounter { count: 50, window_start: 0 };
    let r = service.create_transaction_at(
        "B",
        &CreateTransactionRequest { listing_id: 1, payment_method: "card".to_string() },
        Some(full),
        None,
        None,
        2,
        600,
    );
    assert_eq!(r.counter, full);
    assert_eq!(r.outcome, Err(MarketError::RateLimited { retry_after: 3_000 }));
    let counted = service.create_transaction_at(
        "B",
        &CreateTransactionRequest { listing_id: 1, payment_method: "card".to_string() },
        Some(RateLimitCounter { count: 3, window_start: 0 }),
        None,
        None,
        2,
        600,
    );
    assert_eq!(counted.counter, RateLimitCounter { count: 4, window_start: 0 });
    assert_eq!(counted.outcome, Err(MarketError::NotFound(Resource::Listing)));
    let full = RateLimitCounter { count: 20, window_start: 0 };
    let r = service.create_review_at(
        "B",
        CreateReviewRequest { transaction_id: 1, rating: 5, review_text: None, deal_verified: true },
        Some(full),
        None,
        false,
        None,
        no_reviews(),
        3,
        600,
    );
    assert_eq!(r.outcome, Err(MarketError::RateLimited { retry_after: 3_000 }));
    let r = service.create_review_at(
        "B",
        CreateReviewRequest { transaction_id: 1, rating: 5, review_text: None, deal_verified: true },
        None,
        None,
        false,
        None,
        no_reviews(),
        3,
        600,
    );
    assert_eq!(r.counter, RateLimitCounter { count: 1, window_start: 600 });
    assert_eq!(r.outcome, Err(MarketError::NotFound(Resource::Transaction)));
}

#[test]
fn operations_that_draw_their_own_identifier_and_time() {
    let service = MarketplaceService::new();
    let listed = service.create_listing(
        "S",
        request(ListingType::DiscountCode, Some("SHOES-20")),
        None,
        &Vec::new(),
        None,
    );
    let made = created(listed.outcome.unwrap());
    assert_eq!(made.listing.created_at, listed.counter.window_start);
    assert!(made.listing.created_at > 1_600_000_000);
    // a version 4 UUID
    assert_eq!((made.listing.id >> 76) & 0xf, 4);
    let listing_id = made.listing.id;
    let bought = service.create_transaction(
        "B",
        &CreateTransactionRequest { listing_id, payment_method: "upi".to_string() },
        None,
        Some(made.listing),
        None,
    );
    let bought = bought.outcome.unwrap();
    assert_ne!(bought.transaction.id, listing_id);
    assert_eq!((bought.transaction.id >> 76) & 0xf, 4);
    assert_eq!(bought.transaction.listing_id, listing_id);
    let escrow = bought.transaction.confirm_escrow(0).unwrap();
    let done = service.complete_transaction("B", Some(escrow), None, no_reviews()).unwrap();
    assert_eq!(done.transaction.status, TransactionStatus::Completed);
    assert!(done.transaction.completed_at.unwrap() > 1_600_000_000);
    let reviewed = service.create_review(
        "B",
        CreateReviewRequest {
            transaction_id: done.transaction.id,
            rating: 5,
            review_text: None,
            deal_verified: true,
        },
        None,
        Some(&done.transaction),
        false,
        None,
        no_reviews(),
    );
    let reviewed = reviewed.outcome.unwrap();
    assert_eq!(reviewed.review.reviewed_user_id, "S");
    assert_eq!((reviewed.review.id >> 76) & 0xf, 4);
}

fn stored_listing(seller: &str, status: ListingStatus) -> MarketplaceListing {
    MarketplaceListing {
        id: 5,
        seller_id: seller.to_string(),
        listing_type: ListingType::GiftCard,
        title: "old title".to_string(),
        description: None,
        category: "food".to_string(),
        brand_name: None,
        original_value: None,
        selling_price: Decimal::from_i64(5, 0),
        discount_percentage: None,
        expiration_date: None,
        proof_image_url: None,
        status,
        created_at: 1,
        updated_at: 2,
        view_count: 41,
        tags: Vec::new(),
        is_verified: true,
        verification_date: Some(3),
    }
}

#[test]
fn showing_a_listing_counts_a_view() {
    let service = MarketplaceService::new();
    let shown = service
        .get_listing(
            Some(stored_listing("S", ListingStatus::Active)),
            "ess".to_string(),
            None,
            Some("s@example.com".to_string()),
        )
        .unwrap();
    let mut expected = stored_listing("S", ListingStatus::Active);
    expected.view_count = 42;
    assert_eq!(shown.listing, expected);
    assert_eq!(shown.seller_username, "ess");
    assert_eq!(shown.seller_trust_score, 50_000);
    assert_eq!(shown.seller_profile_image, Some("s@example.com".to_string()));
    let shown = service
        .get_listing(Some(stored_listing("S", ListingStatus::Sold)), "ess".to_string(), Some(91_500), None)
        .unwrap();
    assert_eq!(shown.seller_trust_score, 91_500);
    assert_eq!(shown.listing.status, ListingStatus::Sold);
    assert_eq!(
        service.get_listing(None, "ess".to_string(), None, None),
        Err(MarketError::NotFound(Resource::Listing))
    );
    let mut seen = stored_listing("S", ListingStatus::Active);
    seen.view_count = i32::MAX;
    assert_eq!(
        service.get_listing(Some(seen), "ess".to_string(), None, None),
        Err(MarketError::Internal(InternalReason::CounterOverflow))
    );
}

fn title_update(title: Option<&str>) -> UpdateListingRequest {
    UpdateListingRequest {
        title: title.map(|t| t.to_string()),
        description: Some("ignored".to_string()),
        category: None,
        brand_name: None,
        original_value: None,
        selling_price: Some(Decimal::from_i64(1, 0)),
        discount_percentage: None,
        expiration_date: None,
        proof_image_url: None,
        tags: None,
    }
}

#[test]
fn sellers_update_their_own_listings() {
    let service = MarketplaceService::new();
    let updated = service
        .update_listing_at(
            "S",
            Some(stored_listing("S", ListingStatus::Active)),
            title_update(Some("new title")),
            77,
        )
        .unwrap();
    let mut expected = stored_listing("S", ListingStatus::Active);
    expected.title = "new title".to_string();
    expected.updated_at = 77;
    assert_eq!(updated, expected);
    let untouched = service
        .update_listing_at("S", Some(stored_listing("S", ListingStatus::Sold)), title_update(None), 78)
        .unwrap();
    assert_eq!(untouched.title, "old title");
    assert_eq!(untouched.updated_at, 78);
    assert_eq!(untouched.status, ListingStatus::Sold);
    assert_eq!(
        service.update_listing_at(
            "X",
            Some(stored_listing("S", ListingStatus::Active)),
            title_update(Some("mine now")),
            79
        ),
        Err(MarketError::Forbidden(ForbiddenReason::NotOwner))
    );
    assert_eq!(
        service.update_listing(
            "X",
            Some(stored_listing("S", ListingStatus::Active)),
            title_update(Some("mine now"))
        ),
        Err(MarketError::Forbidden(ForbiddenReason::NotOwner))
    );
    assert_eq!(
        service.update_listing_at("S", None, title_update(None), 79),
        Err(MarketError::NotFound(Resource::Listing))
    );
    let now = service
        .update_listing("S", Some(stored_listing("S", ListingStatus::Active)), title_update(None))
        .unwrap();
    assert!(now.updated_at > 1_600_000_000);
}

#[test]
fn sellers_delete_their_own_listings() {
    let service = MarketplaceService::new();
    let listing = stored_listing("S", ListingStatus::Active);
    assert_eq!(service.delete_listing("S", Some(&listing)), Ok(()));
    assert_eq!(
        service.delete_listing("X", Some(&listing)),
        Err(MarketError::Forbidden(ForbiddenReason::NotOwner))
    );
    assert_eq!(service.delete_listing("S", None), Err(MarketError::NotFound(Resource::Listing)));
}

#[test]
fn profile_counts_the_listings_of_the_user() {
    let service = MarketplaceService::new();
    let listings = vec![
        stored_listing("S", ListingStatus::Active),
        stored_listing("S", ListingStatus::Sold),
        stored_listing("T", ListingStatus::Active),
        stored_listing("S", ListingStatus::Sold),
        stored_listing("S", ListingStatus::Expired),
    ];
    let user = UserRecord {
        username: "ess".to_string(),
        email: Some("s@example.com".to_string()),
        created_at: 12,
    };
    let profile = service.get_user_profile_at("S", Some(user.clone()), None, &listings, 500).unwrap();
    assert_eq!(profile.user_id, "S");
    assert_eq!(profile.username, "ess");
    assert_eq!(profile.profile_image_url, Some("s@example.com".to_string()));
    assert_eq!(profile.member_since, 12);
    assert_eq!(profile.total_listings, 4);
    assert_eq!(profile.active_listings, 1);
    assert_eq!(profile.completed_sales, 2);
    assert_eq!(profile.trust_score, MarketplaceTrustScore::neutral("S", 500));
    let mut trust = MarketplaceTrustScore::neutral("S", 1);
    trust.trust_score = 99_000;
    let profile =
        service.get_user_profile("S", Some(user), Some(trust.clone()), &Vec::new()).unwrap();
    assert_eq!(profile.trust_score, trust);
    assert_eq!(profile.total_listings, 0);
    assert_eq!(
        service.get_user_profile_at("S", None, None, &listings, 500),
        Err(MarketError::NotFound(Resource::User))
    );
}

#[test]
fn service_builds_the_statement_for_listings() {
    let service = MarketplaceService::new();
    let filters = marketplace::query::ListingFilters {
        category: None,
        listing_type: None,
        min_price: None,
        max_price: None,
        seller_id: Some("S".to_string()),
        status: None,
        is_verified: None,
        search_query: None,
        sort_by: Some("popularity".to_string()),
        page: Some(1),
        limit: None,
    };
    let statement = service.get_listings(&filters);
    assert!(statement.sql.ends_with(" WHERE 1=1 AND l.seller_id = $1 ORDER BY l.view_count DESC LIMIT 20 OFFSET 20"));
    assert_eq!(statement.bindings, vec!["S".to_string()]);
}
