//! The records of the marketplace and the closed sets of values that their
//! fields take.
//!
//! Identifiers are UUIDs held as 128-bit integers, instants are whole
//! seconds since the Unix epoch, and amounts are `Decimal`s. Each record has
//! a view, which is what the contracts of the crate speak of.

use vstd::prelude::*;
use crate::decimal::{Decimal, DecimalView};
use crate::text::{opt_text, same_text, texts};

verus! {

/// What a listing sells.
#[derive(Clone, Copy, Debug, PartialEq, Eq, Structural)]
pub enum ListingType {
    DiscountCode,
    GiftCard,
    ReferralLink,
    LocationDeal,
    CashbackOffer,
    LoyaltyPoints,
}

/// Where a listing stands.
#[derive(Clone, Copy, Debug, PartialEq, Eq, Structural)]
pub enum ListingStatus {
    Active,
    Sold,
    Expired,
    Suspended,
}

/// Where a transaction stands.
#[derive(Clone, Copy, Debug, PartialEq, Eq, Structural)]
pub enum TransactionStatus {
    Pending,
    Escrow,
    Completed,
    Cancelled,
    Disputed,
}

/// How a buyer pays.
#[derive(Clone, Copy, Debug, PartialEq, Eq, Structural)]
pub enum PaymentType {
    Card,
    Paypal,
    Upi,
    Wallet,
}

/// Where the verification of a listing stands.
#[derive(Clone, Copy, Debug, PartialEq, Eq, Structural)]
pub enum VerificationStatus {
    Pending,
    InProgress,
    Verified,
    Rejected,
}

impl ListingType {
    /// The name under which the store files the type.
    pub open spec fn name(self) -> Seq<char> {
        match self {
            ListingType::DiscountCode => "discount_code"@,
            ListingType::GiftCard => "gift_card"@,
            ListingType::ReferralLink => "referral_link"@,
            ListingType::LocationDeal => "location_deal"@,
            ListingType::CashbackOffer => "cashback_offer"@,
            ListingType::LoyaltyPoints => "loyalty_points"@,
        }
    }

    /// The name under which the store files the type.
    pub fn as_str(&self) -> (s: &'static str)
        ensures
            s@ == self.name(),
    {
        match self {
            ListingType::DiscountCode => "discount_code",
            ListingType::GiftCard => "gift_card",
            ListingType::ReferralLink => "referral_link",
            ListingType::LocationDeal => "location_deal",
            ListingType::CashbackOffer => "cashback_offer",
            ListingType::LoyaltyPoints => "loyalty_points",
        }
    }

    /// The type that a name of the store stands for, if it is one.
    pub open spec fn named(s: Seq<char>) -> Option<ListingType> {
        if s == "discount_code"@ {
            Some(ListingType::DiscountCode)
        } else if s == "gift_card"@ {
            Some(ListingType::GiftCard)
        } else if s == "referral_link"@ {
            Some(ListingType::ReferralLink)
        } else if s == "location_deal"@ {
            Some(ListingType::LocationDeal)
        } else if s == "cashback_offer"@ {
            Some(ListingType::CashbackOffer)
        } else if s == "loyalty_points"@ {
            Some(ListingType::LoyaltyPoints)
        } else {
            None
        }
    }

    /// Reads a name of the store.
    pub fn parse(s: &str) -> (r: Option<ListingType>)
        ensures
            r == ListingType::named(s@),
    {
        if same_text(s, "discount_code") {
            Some(ListingType::DiscountCode)
        } else if same_text(s, "gift_card") {
            Some(ListingType::GiftCard)
        } else if same_text(s, "referral_link") {
            Some(ListingType::ReferralLink)
        } else if same_text(s, "location_deal") {
            Some(ListingType::LocationDeal)
        } else if same_text(s, "cashback_offer") {
            Some(ListingType::CashbackOffer)
        } else if same_text(s, "loyalty_points") {
            Some(ListingType::LoyaltyPoints)
        } else {
            None
        }
    }

    /// Every type is read back from its own name.
    pub proof fn lemma_name_round_trip(self)
        ensures
            ListingType::named(self.name()) == Some(self),
    {
        reveal_strlit("discount_code");
        reveal_strlit("gift_card");
        reveal_strlit("referral_link");
        reveal_strlit("location_deal");
        reveal_strlit("cashback_offer");
        reveal_strlit("loyalty_points");
        assert("gift_card"@[0] == 'g');
        assert("referral_link"@[0] == 'r');
        assert("location_deal"@[1] == 'o');
        assert("cashback_offer"@[0] == 'c');
        assert("loyalty_points"@[1] == 'o');
        assert("loyalty_points"@[2] == 'y');
        assert("location_deal"@[2] == 'c');
        assert("discount_code"@[0] == 'd');
    }
}

impl ListingStatus {
    /// The name under which the store files the status.
    pub open spec fn name(self) -> Seq<char> {
        match self {
            ListingStatus::Active => "active"@,
            ListingStatus::Sold => "sold"@,
            ListingStatus::Expired => "expired"@,
            ListingStatus::Suspended => "suspended"@,
        }
    }

    /// The name under which the store files the status.
    pub fn as_str(&self) -> (s: &'static str)
        ensures
            s@ == self.name(),
    {
        match self {
            ListingStatus::Active => "active",
            ListingStatus::Sold => "sold",
            ListingStatus::Expired => "expired",
            ListingStatus::Suspended => "suspended",
        }
    }

    /// The status that a name of the store stands for, if it is one.
    pub open spec fn named(s: Seq<char>) -> Option<ListingStatus> {
        if s == "active"@ {
            Some(ListingStatus::Active)
        } else if s == "sold"@ {
            Some(ListingStatus::Sold)
        } else if s == "expired"@ {
            Some(ListingStatus::Expired)
        } else if s == "suspended"@ {
            Some(ListingStatus::Suspended)
        } else {
            None
        }
    }

    /// Reads a name of the store.
    pub fn parse(s: &str) -> (r: Option<ListingStatus>)
        ensures
            r == ListingStatus::named(s@),
    {
        if same_text(s, "active") {
            Some(ListingStatus::Active)
        } else if same_text(s, "sold") {
            Some(ListingStatus::Sold)
        } else if same_text(s, "expired") {
            Some(ListingStatus::Expired)
        } else if same_text(s, "suspended") {
            Some(ListingStatus::Suspended)
        } else {
            None
        }
    }

    /// Every status is read back from its own name.
    pub proof fn lemma_name_round_trip(self)
        ensures
            ListingStatus::named(self.name()) == Some(self),
    {
        reveal_strlit("active");
        reveal_strlit("sold");
        reveal_strlit("expired");
        reveal_strlit("suspended");
        assert("active"@[0] == 'a');
        assert("sold"@[1] == 'o');
        assert("expired"@[0] == 'e');
        assert("suspended"@[1] == 'u');
    }

    /// The one step that a listing's status takes: an active listing is
    /// sold. Everything else leaves the status as it is.
    pub open spec fn steps_to(self, next: ListingStatus) -> bool {
        next == self || (self == ListingStatus::Active && next == ListingStatus::Sold)
    }
}

impl TransactionStatus {
    /// The name under which the store files the status.
    pub open spec fn name(self) -> Seq<char> {
        match self {
            TransactionStatus::Pending => "pending"@,
            TransactionStatus::Escrow => "escrow"@,
            TransactionStatus::Completed => "completed"@,
            TransactionStatus::Cancelled => "cancelled"@,
            TransactionStatus::Disputed => "disputed"@,
        }
    }

    /// The name under which the store files the status.
    pub fn as_str(&self) -> (s: &'static str)
        ensures
            s@ == self.name(),
    {
        match self {
            TransactionStatus::Pending => "pending",
            TransactionStatus::Escrow => "escrow",
            TransactionStatus::Completed => "completed",
            TransactionStatus::Cancelled => "cancelled",
            TransactionStatus::Disputed => "disputed",
        }
    }

    /// The status that a name of the store stands for, if it is one.
    pub open spec fn named(s: Seq<char>) -> Option<TransactionStatus> {
        if s == "pending"@ {
            Some(TransactionStatus::Pending)
        } else if s == "escrow"@ {
            Some(TransactionStatus::Escrow)
        } else if s == "completed"@ {
            Some(TransactionStatus::Completed)
        } else if s == "cancelled"@ {
            Some(TransactionStatus::Cancelled)
        } else if s == "disputed"@ {
            Some(TransactionStatus::Disputed)
        } else {
            None
        }
    }

    /// Reads a name of the store.
    pub fn parse(s: &str) -> (r: Option<TransactionStatus>)
        ensures
            r == TransactionStatus::named(s@),
    {
        if same_text(s, "pending") {
            Some(TransactionStatus::Pending)
        } else if same_text(s, "escrow") {
            Some(TransactionStatus::Escrow)
        } else if same_text(s, "completed") {
            Some(TransactionStatus::Completed)
        } else if same_text(s, "cancelled") {
            Some(TransactionStatus::Cancelled)
        } else if same_text(s, "disputed") {
            Some(TransactionStatus::Disputed)
        } else {
            None
        }
    }

    /// Every status is read back from its own name.
    pub proof fn lemma_name_round_trip(self)
        ensures
            TransactionStatus::named(self.name()) == Some(self),
    {
        reveal_strlit("pending");
        reveal_strlit("escrow");
        reveal_strlit("completed");
        reveal_strlit("cancelled");
        reveal_strlit("disputed");
        assert("pending"@[0] == 'p');
        assert("escrow"@[0] == 'e');
        assert("completed"@[1] == 'o');
        assert("cancelled"@[1] == 'a');
        assert("disputed"@[0] == 'd');
    }

    /// The steps that a transaction's status may take. A pending
    /// transaction moves into escrow or is cancelled. From escrow it is
    /// completed, cancelled or disputed. A completed one may still be
    /// disputed, and a dispute is settled as completed or cancelled. Nothing
    /// leads back to pending, and nothing leads on from cancelled.
    pub open spec fn may_become(self, next: TransactionStatus) -> bool {
        match (self, next) {
            (TransactionStatus::Pending, TransactionStatus::Escrow) => true,
            (TransactionStatus::Pending, TransactionStatus::Cancelled) => true,
            (TransactionStatus::Escrow, TransactionStatus::Completed) => true,
            (TransactionStatus::Escrow, TransactionStatus::Cancelled) => true,
            (TransactionStatus::Escrow, TransactionStatus::Disputed) => true,
            (TransactionStatus::Completed, TransactionStatus::Disputed) => true,
            (TransactionStatus::Disputed, TransactionStatus::Completed) => true,
            (TransactionStatus::Disputed, TransactionStatus::Cancelled) => true,
            _ => false,
        }
    }

    /// Whether the status may change to `next`.
    pub fn can_become(&self, next: TransactionStatus) -> (b: bool)
        ensures
            b == self.may_become(next),
    {
        match (*self, next) {
            (TransactionStatus::Pending, TransactionStatus::Escrow) => true,
            (TransactionStatus::Pending, TransactionStatus::Cancelled) => true,
            (TransactionStatus::Escrow, TransactionStatus::Completed) => true,
            (TransactionStatus::Escrow, TransactionStatus::Cancelled) => true,
            (TransactionStatus::Escrow, TransactionStatus::Disputed) => true,
            (TransactionStatus::Completed, TransactionStatus::Disputed) => true,
            (TransactionStatus::Disputed, TransactionStatus::Completed) => true,
            (TransactionStatus::Disputed, TransactionStatus::Cancelled) => true,
            _ => false,
        }
    }

    /// In the normal flow nothing follows a completed or cancelled
    /// transaction.
    pub open spec fn is_terminal(self) -> bool {
        self == TransactionStatus::Completed || self == TransactionStatus::Cancelled
    }
}

impl PaymentType {
    /// The name under which the store files the payment type.
    pub open spec fn name(self) -> Seq<char> {
        match self {
            PaymentType::Card => "card"@,
            PaymentType::Paypal => "paypal"@,
            PaymentType::Upi => "upi"@,
            PaymentType::Wallet => "wallet"@,
        }
    }

    /// The name under which the store files the payment type.
    pub fn as_str(&self) -> (s: &'static str)
        ensures
            s@ == self.name(),
    {
        match self {
            PaymentType::Card => "card",
            PaymentType::Paypal => "paypal",
            PaymentType::Upi => "upi",
            PaymentType::Wallet => "wallet",
        }
    }
}

impl PaymentType {
    /// The payment type that a name of the store stands for, if it is one.
    pub open spec fn named(s: Seq<char>) -> Option<PaymentType> {
        if s == "card"@ {
            Some(PaymentType::Card)
        } else if s == "paypal"@ {
            Some(PaymentType::Paypal)
        } else if s == "upi"@ {
            Some(PaymentType::Upi)
        } else if s == "wallet"@ {
            Some(PaymentType::Wallet)
        } else {
            None
        }
    }

    /// Reads a name of the store.
    pub fn parse(s: &str) -> (r: Option<PaymentType>)
        ensures
            r == PaymentType::named(s@),
    {
        if same_text(s, "card") {
            Some(PaymentType::Card)
        } else if same_text(s, "paypal") {
            Some(PaymentType::Paypal)
        } else if same_text(s, "upi") {
            Some(PaymentType::Upi)
        } else if same_text(s, "wallet") {
            Some(PaymentType::Wallet)
        } else {
            None
        }
    }

    /// Every payment type is read back from its own name.
    pub proof fn lemma_name_round_trip(self)
        ensures
            PaymentType::named(self.name()) == Some(self),
    {
        reveal_strlit("card");
        reveal_strlit("paypal");
        reveal_strlit("upi");
        reveal_strlit("wallet");
        assert("card"@[0] == 'c');
        assert("paypal"@[0] == 'p');
        assert("upi"@[0] == 'u');
        assert("wallet"@[0] == 'w');
    }
}

impl VerificationStatus {
    /// The name under which the store files the status.
    pub open spec fn name(self) -> Seq<char> {
        match self {
            VerificationStatus::Pending => "pending"@,
            VerificationStatus::InProgress => "in_progress"@,
            VerificationStatus::Verified => "verified"@,
            VerificationStatus::Rejected => "rejected"@,
        }
    }

    /// The name under which the store files the status.
    pub fn as_str(&self) -> (s: &'static str)
        ensures
            s@ == self.name(),
    {
        match self {
            VerificationStatus::Pending => "pending",
            VerificationStatus::InProgress => "in_progress",
            VerificationStatus::Verified => "verified",
            VerificationStatus::Rejected => "rejected",
        }
    }
}

/// The amount inside an optional decimal.
pub open spec fn opt_amount(o: Option<Decimal>) -> Option<DecimalView> {
    match o {
        Some(d) => Some(d@),
        None => None,
    }
}

/// A listing as the store holds it.
#[derive(Clone, Debug, PartialEq, Eq)]
pub struct MarketplaceListing {
    pub id: u128,
    pub seller_id: String,
    pub listing_type: ListingType,
    pub title: String,
    pub description: Option<String>,
    pub category: String,
    pub brand_name: Option<String>,
    pub original_value: Option<Decimal>,
    pub selling_price: Decimal,
    pub discount_percentage: Option<Decimal>,
    pub expiration_date: Option<i64>,
    pub proof_image_url: Option<String>,
    pub status: ListingStatus,
    pub created_at: i64,
    pub updated_at: i64,
    pub view_count: i32,
    pub tags: Vec<String>,
    pub is_verified: bool,
    pub verification_date: Option<i64>,
}

/// What a listing holds.
pub struct ListingView {
    pub id: u128,
    pub seller_id: Seq<char>,
    pub listing_type: ListingType,
    pub title: Seq<char>,
    pub description: Option<Seq<char>>,
    pub category: Seq<char>,
    pub brand_name: Option<Seq<char>>,
    pub original_value: Option<DecimalView>,
    pub selling_price: DecimalView,
    pub discount_percentage: Option<DecimalView>,
    pub expiration_date: Option<i64>,
    pub proof_image_url: Option<Seq<char>>,
    pub status: ListingStatus,
    pub created_at: i64,
    pub updated_at: i64,
    pub view_count: i32,
    pub tags: Seq<Seq<char>>,
    pub is_verified: bool,
    pub verification_date: Option<i64>,
}

impl View for MarketplaceListing {
    type V = ListingView;

    open spec fn view(&self) -> ListingView {
        ListingView {
            id: self.id,
            seller_id: self.seller_id@,
            listing_type: self.listing_type,
            title: self.title@,
            description: opt_text(self.description),
            category: self.category@,
            brand_name: opt_text(self.brand_name),
            original_value: opt_amount(self.original_value),
            selling_price: self.selling_price@,
            discount_percentage: opt_amount(self.discount_percentage),
            expiration_date: self.expiration_date,
            proof_image_url: opt_text(self.proof_image_url),
            status: self.status,
            created_at: self.created_at,
            updated_at: self.updated_at,
            view_count: self.view_count,
            tags: texts(self.tags@),
            is_verified: self.is_verified,
            verification_date: self.verification_date,
        }
    }
}

/// What a seller sends to create a listing.
#[derive(Clone, Debug, PartialEq, Eq)]
pub struct CreateListingRequest {
    pub listing_type: ListingType,
    pub title: String,
    pub description: Option<String>,
    pub category: String,
    pub brand_name: Option<String>,
    pub original_value: Option<Decimal>,
    pub selling_price: Decimal,
    /// Ignored: the discount is derived from the two amounts.
    pub discount_percentage: Option<Decimal>,
    pub expiration_date: Option<i64>,
    pub proof_image_url: Option<String>,
    pub tags: Vec<String>,
    /// The secret of a discount-code listing.
    pub coupon_code: Option<String>,
}

/// What a seller sends to change a listing. A field that is absent stays as
/// it is.
#[derive(Clone, Debug, PartialEq, Eq)]
pub struct UpdateListingRequest {
    pub title: Option<String>,
    pub description: Option<String>,
    pub category: Option<String>,
    pub brand_name: Option<String>,
    pub original_value: Option<Decimal>,
    pub selling_price: Option<Decimal>,
    pub discount_percentage: Option<Decimal>,
    pub expiration_date: Option<i64>,
    pub proof_image_url: Option<String>,
    pub tags: Option<Vec<String>>,
}

/// A purchase as the store holds it.
#[derive(Clone, Debug, PartialEq, Eq)]
pub struct MarketplaceTransaction {
    pub id: u128,
    pub listing_id: u128,
    pub buyer_id: String,
    pub seller_id: String,
    /// The selling price of the listing at the moment of the purchase.
    pub amount: Decimal,
    pub status: TransactionStatus,
    pub payment_method: Option<String>,
    pub payment_id: Option<String>,
    pub escrow_release_date: Option<i64>,
    pub created_at: i64,
    pub completed_at: Option<i64>,
    pub cancellation_reason: Option<String>,
    pub dispute_reason: Option<String>,
}

/// What a transaction holds.
pub struct TransactionView {
    pub id: u128,
    pub listing_id: u128,
    pub buyer_id: Seq<char>,
    pub seller_id: Seq<char>,
    pub amount: DecimalView,
    pub status: TransactionStatus,
    pub payment_method: Option<Seq<char>>,
    pub payment_id: Option<Seq<char>>,
    pub escrow_release_date: Option<i64>,
    pub created_at: i64,
    pub completed_at: Option<i64>,
    pub cancellation_reason: Option<Seq<char>>,
    pub dispute_reason: Option<Seq<char>>,
}

impl View for MarketplaceTransaction {
    type V = TransactionView;

    open spec fn view(&self) -> TransactionView {
        TransactionView {
            id: self.id,
            listing_id: self.listing_id,
            buyer_id: self.buyer_id@,
            seller_id: self.seller_id@,
            amount: self.amount@,
            status: self.status,
            payment_method: opt_text(self.payment_method),
            payment_id: opt_text(self.payment_id),
            escrow_release_date: self.escrow_release_date,
            created_at: self.created_at,
            completed_at: self.completed_at,
            cancellation_reason: opt_text(self.cancellation_reason),
            dispute_reason: opt_text(self.dispute_reason),
        }
    }
}

impl TransactionView {
    /// What holds of every transaction of the store: buyer and seller are
    /// two people, and the instant of completion is there exactly once the
    /// transaction has been completed.
    pub open spec fn well_formed(self) -> bool {
        &&& self.buyer_id != self.seller_id
        &&& (self.status == TransactionStatus::Completed ==> self.completed_at is Some)
        &&& (self.status == TransactionStatus::Pending || self.status == TransactionStatus::Escrow
            ==> self.completed_at is None)
    }

    /// The transaction has been completed at some point, whatever became of
    /// it later.
    pub open spec fn has_completed(self) -> bool {
        self.completed_at is Some
    }
}

/// What a buyer sends to purchase a listing.
#[derive(Clone, Debug, PartialEq, Eq)]
pub struct CreateTransactionRequest {
    pub listing_id: u128,
    pub payment_method: String,
}

/// A change of a transaction's status, with the reason where one is due.
#[derive(Clone, Debug, PartialEq, Eq)]
pub struct UpdateTransactionRequest {
    pub status: Option<String>,
    pub cancellation_reason: Option<String>,
    pub dispute_reason: Option<String>,
}

/// A review as the store holds it.
#[derive(Clone, Debug, PartialEq, Eq)]
pub struct MarketplaceReview {
    pub id: u128,
    pub transaction_id: u128,
    pub reviewer_id: String,
    pub reviewed_user_id: String,
    pub rating: i32,
    pub review_text: Option<String>,
    pub deal_verified: bool,
    pub created_at: i64,
    pub is_buyer_review: bool,
}

/// What a review holds.
pub struct ReviewView {
    pub id: u128,
    pub transaction_id: u128,
    pub reviewer_id: Seq<char>,
    pub reviewed_user_id: Seq<char>,
    pub rating: i32,
    pub review_text: Option<Seq<char>>,
    pub deal_verified: bool,
    pub created_at: i64,
    pub is_buyer_review: bool,
}

impl View for MarketplaceReview {
    type V = ReviewView;

    open spec fn view(&self) -> ReviewView {
        ReviewView {
            id: self.id,
            transaction_id: self.transaction_id,
            reviewer_id: self.reviewer_id@,
            reviewed_user_id: self.reviewed_user_id@,
            rating: self.rating,
            review_text: opt_text(self.review_text),
            deal_verified: self.deal_verified,
            created_at: self.created_at,
            is_buyer_review: self.is_buyer_review,
        }
    }
}

/// What a party of a transaction sends to review it.
#[derive(Clone, Debug, PartialEq, Eq)]
pub struct CreateReviewRequest {
    pub transaction_id: u128,
    pub rating: i32,
    pub review_text: Option<String>,
    pub deal_verified: bool,
}

/// The record that lets a buyer read the secret of a listing. It is written
/// when the buyer's transaction is completed.
#[derive(Clone, Debug, PartialEq, Eq)]
pub struct CouponAccessGrant {
    pub listing_id: u128,
    pub user_id: String,
    pub transaction_id: u128,
}

/// What an access grant holds.
pub struct GrantView {
    pub listing_id: u128,
    pub user_id: Seq<char>,
    pub transaction_id: u128,
}

impl View for CouponAccessGrant {
    type V = GrantView;

    open spec fn view(&self) -> GrantView {
        GrantView {
            listing_id: self.listing_id,
            user_id: self.user_id@,
            transaction_id: self.transaction_id,
        }
    }
}

/// A stored payment method of a user.
#[derive(Clone, Debug, PartialEq, Eq)]
pub struct UserPaymentMethod {
    pub id: u128,
    pub user_id: String,
    pub payment_type: String,
    pub provider_customer_id: Option<String>,
    pub last_four: Option<String>,
    pub card_brand: Option<String>,
    pub is_default: bool,
    pub created_at: i64,
}

/// What a user sends to store a payment method.
#[derive(Clone, Debug, PartialEq, Eq)]
pub struct CreatePaymentMethodRequest {
    pub payment_type: String,
    pub provider_customer_id: Option<String>,
    pub last_four: Option<String>,
    pub card_brand: Option<String>,
    pub is_default: bool,
}

impl CreatePaymentMethodRequest {
    /// The payment type that the request names, if it names one.
    pub fn kind(&self) -> (kind: Option<PaymentType>)
        ensures
            kind == PaymentType::named(self.payment_type@),
    {
        PaymentType::parse(self.payment_type.as_str())
    }
}

/// A listing waiting for, or past, its verification.
#[derive(Clone, Debug, PartialEq, Eq)]
pub struct MarketplaceVerificationQueue {
    pub id: u128,
    pub listing_id: u128,
    pub verifier_id: Option<String>,
    pub verification_status: String,
    pub verification_notes: Option<String>,
    pub submitted_at: i64,
    pub verified_at: Option<i64>,
}

/// A notification as the store holds it.
#[derive(Clone, Debug, PartialEq, Eq)]
pub struct MarketplaceNotification {
    pub id: u128,
    pub user_id: String,
    pub notification_type: String,
    pub title: String,
    pub message: String,
    pub related_listing_id: Option<u128>,
    pub related_transaction_id: Option<u128>,
    pub is_read: bool,
    pub created_at: i64,
}

/// A notification to be delivered.
#[derive(Clone, Debug, PartialEq, Eq)]
pub struct CreateNotificationRequest {
    pub user_id: String,
    pub notification_type: String,
    pub title: String,
    pub message: String,
    pub related_listing_id: Option<u128>,
    pub related_transaction_id: Option<u128>,
}

/// What a notification to be delivered holds.
pub struct NotificationView {
    pub user_id: Seq<char>,
    pub notification_type: Seq<char>,
    pub title: Seq<char>,
    pub message: Seq<char>,
    pub related_listing_id: Option<u128>,
    pub related_transaction_id: Option<u128>,
}

impl View for CreateNotificationRequest {
    type V = NotificationView;

    open spec fn view(&self) -> NotificationView {
        NotificationView {
            user_id: self.user_id@,
            notification_type: self.notification_type@,
            title: self.title@,
            message: self.message@,
            related_listing_id: self.related_listing_id,
            related_transaction_id: self.related_transaction_id,
        }
    }
}

/// Which kinds of notification a user wants.
#[derive(Clone, Copy, Debug, PartialEq, Eq, Structural)]
pub struct NotificationSettings {
    pub email_notifications: bool,
    pub push_notifications: bool,
    pub new_listing_alerts: bool,
    pub price_drop_alerts: bool,
    pub transaction_updates: bool,
    pub review_notifications: bool,
}

impl NotificationSettings {
    /// The settings of a user who has chosen none: everything but push
    /// notifications.
    pub fn standard() -> (s: NotificationSettings)
        ensures
            s == (NotificationSettings {
                email_notifications: true,
                push_notifications: false,
                new_listing_alerts: true,
                price_drop_alerts: true,
                transaction_updates: true,
                review_notifications: true,
            }),
    {
        NotificationSettings {
            email_notifications: true,
            push_notifications: false,
            new_listing_alerts: true,
            price_drop_alerts: true,
            transaction_updates: true,
            review_notifications: true,
        }
    }
}

/// The reason a party gives to cancel a transaction.
#[derive(Clone, Debug, PartialEq, Eq)]
pub struct CancelTransactionRequest {
    pub reason: String,
}

/// The reason, and the evidence, a party gives to dispute a transaction.
#[derive(Clone, Debug, PartialEq, Eq)]
pub struct DisputeTransactionRequest {
    pub reason: String,
    pub evidence: Option<String>,
}

} // verus!
