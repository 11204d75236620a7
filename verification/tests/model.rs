use marketplace::model::{
    CreatePaymentMethodRequest, ListingStatus, ListingType, NotificationSettings, PaymentType,
    TransactionStatus, VerificationStatus,
};
use marketplace::query::{
    page_of, NotificationFilters, Page, ReviewFilters, TransactionFilters,
};

#[test]
fn listing_types_have_their_names() {
    let all = [
        (ListingType::DiscountCode, "discount_code"),
        (ListingType::GiftCard, "gift_card"),
        (ListingType::ReferralLink, "referral_link"),
        (ListingType::LocationDeal, "location_deal"),
        (ListingType::CashbackOffer, "cashback_offer"),
        (ListingType::LoyaltyPoints, "loyalty_points"),
    ];
    for (t, name) in all {
        assert_eq!(t.as_str(), name);
        assert_eq!(ListingType::parse(name), Some(t));
    }
    assert_eq!(ListingType::parse("DiscountCode"), None);
    assert_eq!(ListingType::parse(""), None);
}

#[test]
fn listing_statuses_have_their_names() {
    let all = [
        (ListingStatus::Active, "active"),
        (ListingStatus::Sold, "sold"),
        (ListingStatus::Expired, "expired"),
        (ListingStatus::Suspended, "suspended"),
    ];
    for (s, name) in all {
        assert_eq!(s.as_str(), name);
        assert_eq!(ListingStatus::parse(name), Some(s));
    }
    assert_eq!(ListingStatus::parse("Active"), None);
    assert_eq!(ListingStatus::parse("pending"), None);
}

#[test]
fn transaction_statuses_have_their_names() {
    let all = [
        (TransactionStatus::Pending, "pending"),
        (TransactionStatus::Escrow, "escrow"),
        (TransactionStatus::Completed, "completed"),
        (TransactionStatus::Cancelled, "cancelled"),
        (TransactionStatus::Disputed, "disputed"),
    ];
    for (s, name) in all {
        assert_eq!(s.as_str(), name);
        assert_eq!(TransactionStatus::parse(name), Some(s));
    }
    assert_eq!(TransactionStatus::parse("canceled"), None);
}

#[test]
fn payment_types_and_verification_have_their_names() {
    assert_eq!(PaymentType::Card.as_str(), "card");
    assert_eq!(PaymentType::Paypal.as_str(), "paypal");
    assert_eq!(PaymentType::Upi.as_str(), "upi");
    assert_eq!(PaymentType::Wallet.as_str(), "wallet");
    assert_eq!(VerificationStatus::Pending.as_str(), "pending");
    assert_eq!(VerificationStatus::InProgress.as_str(), "in_progress");
    assert_eq!(VerificationStatus::Verified.as_str(), "verified");
    assert_eq!(VerificationStatus::Rejected.as_str(), "rejected");
}

#[test]
fn standard_notification_settings() {
    assert_eq!(
        NotificationSettings::standard(),
        NotificationSettings {
            email_notifications: true,
            push_notifications: false,
            new_listing_alerts: true,
            price_drop_alerts: true,
            transaction_updates: true,
            review_notifications: true,
        }
    );
}

#[test]
fn payment_methods_name_their_type() {
    for (kind, name) in [
        (PaymentType::Card, "card"),
        (PaymentType::Paypal, "paypal"),
        (PaymentType::Upi, "upi"),
        (PaymentType::Wallet, "wallet"),
    ] {
        assert_eq!(PaymentType::parse(name), Some(kind));
        let request = CreatePaymentMethodRequest {
            payment_type: name.to_string(),
            provider_customer_id: None,
            last_four: Some("4242".to_string()),
            card_brand: None,
            is_default: true,
        };
        assert_eq!(request.kind(), Some(kind));
    }
    assert_eq!(PaymentType::parse("cash"), None);
    assert_eq!(PaymentType::parse("Card"), None);
}

#[test]
fn filters_ask_for_a_page() {
    assert_eq!(page_of(None, None), Page { limit: 20, offset: 0 });
    assert_eq!(page_of(Some(2), Some(15)), Page { limit: 15, offset: 30 });
    assert_eq!(page_of(Some(1), Some(1_000)), Page { limit: 100, offset: 100 });
    let t = TransactionFilters { status: None, role: Some("buyer".to_string()), page: Some(4), limit: None };
    assert_eq!(t.window(), Page { limit: 20, offset: 80 });
    let r = ReviewFilters { is_buyer_review: None, min_rating: Some(4), page: None, limit: Some(7) };
    assert_eq!(r.window(), Page { limit: 7, offset: 0 });
    let n = NotificationFilters { is_read: Some(false), notification_type: None, page: Some(1), limit: Some(101) };
    assert_eq!(n.window(), Page { limit: 100, offset: 100 });
}
