//! The error kinds that every operation of the core reports.

use vstd::prelude::*;

verus! {

/// The resource that an operation looked for and did not find.
#[derive(Clone, Copy, Debug, PartialEq, Eq, Structural)]
pub enum Resource {
    Listing,
    Transaction,
    User,
}

/// Why a caller has no rights over the resource it named.
#[derive(Clone, Copy, Debug, PartialEq, Eq, Structural)]
pub enum ForbiddenReason {
    /// Only the buyer of a transaction may complete it.
    NotBuyer,
    /// The caller is neither the buyer nor the seller of the transaction.
    NotParty,
    /// The caller is not the seller of the listing.
    NotOwner,
}

/// The state that made a requested transition impossible.
#[derive(Clone, Copy, Debug, PartialEq, Eq, Structural)]
pub enum ConflictReason {
    /// The listing is not active, so it cannot be bought.
    ListingNotActive,
    /// The transaction is not held in escrow, so it cannot be completed.
    NotInEscrow,
    /// The transaction is not completed, so it cannot be reviewed.
    NotCompleted,
    /// The author has already reviewed this transaction.
    AlreadyReviewed,
    /// The transaction cannot move from its status to the requested one.
    TransitionNotAllowed,
}

/// What was wrong with the request itself.
#[derive(Clone, Copy, Debug, PartialEq, Eq, Structural)]
pub enum InvalidReason {
    /// A buyer tried to purchase their own listing.
    SelfPurchase,
    /// A discount-code listing came without its code.
    MissingCouponCode,
    /// A listing identifier was not a well-formed UUID.
    MalformedListingId,
    /// A rating outside one to five stars.
    RatingOutOfRange,
    /// The declared original value of a listing is zero.
    ZeroOriginalValue,
    /// An amount has a scale on which no arithmetic is done.
    AmountOutOfRange,
    /// A change of status names no status, or one that does not exist.
    UnknownStatus,
}

/// What failed inside the core or its store.
#[derive(Clone, Copy, Debug, PartialEq, Eq, Structural)]
pub enum InternalReason {
    /// A stored secret does not have the form `ciphertext:nonce`.
    MalformedSecret,
    /// A counter of the store would leave its range.
    CounterOverflow,
    /// A computed decimal has a scale on which no arithmetic is done.
    DecimalOutOfRange,
}

/// An error of the marketplace core.
#[derive(Clone, Copy, Debug, PartialEq, Eq, Structural)]
pub enum MarketError {
    NotFound(Resource),
    Forbidden(ForbiddenReason),
    Conflict(ConflictReason),
    InvalidOperation(InvalidReason),
    /// The rate limiter denied the action; `retry_after` is in seconds.
    RateLimited { retry_after: u64 },
    Internal(InternalReason),
}

} // verus!
