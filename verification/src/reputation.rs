//! The reputation engine: a trust score from 0 to 100 for each user,
//! recomputed from the user's transactions and reviews.
//!
//! Scores are held in thousandths of a point, so a score of 50 is the
//! number 50000. The average rating is held exactly, as the sum of the
//! ratings beside their count.

use vstd::prelude::*;
use crate::error::{InternalReason, MarketError};
use crate::model::{MarketplaceReview, ReviewView};
use crate::text::same_text;

verus! {

/// The score of a user of whom nothing is known yet: 50 points.
pub const NEUTRAL_SCORE: u32 = 50000;

/// The highest score: 100 points.
pub const MAX_SCORE: u32 = 100000;

/// The trust record of a user.
#[derive(Clone, Debug, PartialEq, Eq)]
pub struct MarketplaceTrustScore {
    pub user_id: String,
    pub total_transactions: i32,
    pub successful_transactions: i32,
    /// The sum of the ratings that the user has received. Divided by
    /// `total_reviews` it is the average rating.
    pub rating_sum: i64,
    pub total_reviews: i32,
    pub verified_seller: bool,
    /// The score in thousandths of a point, from 0 to `MAX_SCORE`.
    pub trust_score: u32,
    pub last_calculated: i64,
}

/// What a trust record holds.
pub struct TrustScoreView {
    pub user_id: Seq<char>,
    pub total_transactions: i32,
    pub successful_transactions: i32,
    pub rating_sum: i64,
    pub total_reviews: i32,
    pub verified_seller: bool,
    pub trust_score: u32,
    pub last_calculated: i64,
}

impl View for MarketplaceTrustScore {
    type V = TrustScoreView;

    open spec fn view(&self) -> TrustScoreView {
        TrustScoreView {
            user_id: self.user_id@,
            total_transactions: self.total_transactions,
            successful_transactions: self.successful_transactions,
            rating_sum: self.rating_sum,
            total_reviews: self.total_reviews,
            verified_seller: self.verified_seller,
            trust_score: self.trust_score,
            last_calculated: self.last_calculated,
        }
    }
}

/// The reviews that a user has received, counted and summed.
#[derive(Clone, Copy, Debug, PartialEq, Eq, Structural)]
pub struct ReviewAggregate {
    pub review_count: i32,
    pub rating_sum: i64,
}

/// All that the score of a user is computed from.
#[derive(Clone, Copy, Debug, PartialEq, Eq, Structural)]
pub struct TrustInputs {
    pub total_transactions: i32,
    pub successful_transactions: i32,
    pub verified_seller: bool,
    pub review_count: i32,
    pub rating_sum: i64,
}

impl TrustInputs {
    /// The denominator of the exact score: the number of transactions times
    /// the number of reviews, each taken as one where there are none.
    pub open spec fn denominator(self) -> int {
        (if self.total_transactions > 0 {
            self.total_transactions as int
        } else {
            1
        }) * (if self.review_count > 0 {
            self.review_count as int
        } else {
            1
        })
    }

    /// The exact score in thousandths of a point, times `denominator()`.
    ///
    /// The exact score is 50, plus 30 times the share of successful
    /// transactions (nothing without transactions), plus 30 times a fifth of
    /// the average rating (nothing without reviews), plus one for each
    /// review up to ten, plus 10 for a verified seller.
    pub open spec fn numerator(self) -> int {
        let t = if self.total_transactions > 0 {
            self.total_transactions as int
        } else {
            1
        };
        let c = if self.review_count > 0 {
            self.review_count as int
        } else {
            1
        };
        let flat = 50 + (if self.review_count < 10 {
            self.review_count as int
        } else {
            10
        }) + (if self.verified_seller {
            10int
        } else {
            0
        });
        1000 * flat * t * c + (if self.total_transactions > 0 {
            30000 * self.successful_transactions * c
        } else {
            0
        }) + (if self.review_count > 0 {
            6000 * self.rating_sum * t
        } else {
            0
        })
    }

    /// The score in thousandths of a point: the exact score rounded down to
    /// a thousandth and kept within 0 and 100 points.
    pub open spec fn score(self) -> int {
        let exact = self.numerator() / self.denominator();
        if exact < 0 {
            0
        } else if exact > MAX_SCORE {
            MAX_SCORE as int
        } else {
            exact
        }
    }
}

/// The number of reviews that a user has received.
pub open spec fn review_count_of(reviews: Seq<ReviewView>, user: Seq<char>) -> int
    decreases reviews.len(),
{
    if reviews.len() == 0 {
        0
    } else {
        review_count_of(reviews.drop_last(), user) + if reviews.last().reviewed_user_id == user {
            1int
        } else {
            0
        }
    }
}

/// The sum of the ratings that a user has received.
pub open spec fn rating_sum_of(reviews: Seq<ReviewView>, user: Seq<char>) -> int
    decreases reviews.len(),
{
    if reviews.len() == 0 {
        0
    } else {
        rating_sum_of(reviews.drop_last(), user) + if reviews.last().reviewed_user_id == user {
            reviews.last().rating as int
        } else {
            0
        }
    }
}

/// The views of a list of reviews.
pub open spec fn review_views(v: Seq<MarketplaceReview>) -> Seq<ReviewView> {
    Seq::new(v.len(), |i: int| v[i]@)
}

/// A user has received at most as many reviews as there are, and the sum of
/// their ratings is bounded by that number.
pub proof fn lemma_aggregate_bounds(reviews: Seq<ReviewView>, user: Seq<char>)
    ensures
        0 <= review_count_of(reviews, user) <= reviews.len(),
        -0x8000_0000 * review_count_of(reviews, user) <= rating_sum_of(reviews, user)
            <= 0x7fff_ffff * review_count_of(reviews, user),
    decreases reviews.len(),
{
    if reviews.len() > 0 {
        lemma_aggregate_bounds(reviews.drop_last(), user);
    }
}

/// Counts and sums the reviews that a user has received. More reviews than
/// the store can count are an error.
pub fn aggregate_reviews(reviews: &Vec<MarketplaceReview>, user_id: &str) -> (r: Result<
    ReviewAggregate,
    MarketError,
>)
    ensures
        review_count_of(review_views(reviews@), user_id@) > i32::MAX ==> r == Err::<
            ReviewAggregate,
            MarketError,
        >(MarketError::Internal(InternalReason::CounterOverflow)),
        review_count_of(review_views(reviews@), user_id@) <= i32::MAX ==> r is Ok
            && r->Ok_0.review_count == review_count_of(review_views(reviews@), user_id@)
            && r->Ok_0.rating_sum == rating_sum_of(review_views(reviews@), user_id@),
{
    let ghost all = review_views(reviews@);
    let mut count: i32 = 0;
    let mut sum: i64 = 0;
    let mut i: usize = 0;
    assert(all.subrange(0, 0) =~= Seq::<ReviewView>::empty());
    while i < reviews.len()
        invariant
            i <= reviews.len(),
            all == review_views(reviews@),
            count == review_count_of(all.subrange(0, i as int), user_id@),
            sum == rating_sum_of(all.subrange(0, i as int), user_id@),
        decreases reviews.len() - i,
    {
        proof {
            let next = all.subrange(0, i + 1);
            assert(next.drop_last() =~= all.subrange(0, i as int));
            assert(next.last() == reviews@[i as int]@);
            lemma_aggregate_bounds(all.subrange(0, i as int), user_id@);
        }
        if same_text(reviews[i].reviewed_user_id.as_str(), user_id) {
            if count == i32::MAX {
                proof {
                    lemma_count_grows(all, i + 1, user_id@);
                }
                return Err(MarketError::Internal(InternalReason::CounterOverflow));
            }
            count = count + 1;
            assert(-0x8000_0000 * 0x7fff_ffff <= sum + reviews[i as int].rating <= 0x7fff_ffff
                * 0x7fff_ffff) by (nonlinear_arith)
                requires
                    0 <= count - 1 < 0x7fff_ffff,
                    -0x8000_0000 * (count - 1) <= sum <= 0x7fff_ffff * (count - 1),
                    -0x8000_0000 <= reviews[i as int].rating <= 0x7fff_ffff,
            ;
            sum = sum + reviews[i].rating as i64;
        }
        i += 1;
    }
    assert(all.subrange(0, reviews.len() as int) =~= all);
    Ok(ReviewAggregate { review_count: count, rating_sum: sum })
}

/// The count over a list is at least the count over each of its beginnings.
proof fn lemma_count_grows(reviews: Seq<ReviewView>, upto: int, user: Seq<char>)
    requires
        0 <= upto <= reviews.len(),
    ensures
        review_count_of(reviews.subrange(0, upto), user) <= review_count_of(reviews, user),
    decreases reviews.len() - upto,
{
    if upto < reviews.len() {
        let next = reviews.subrange(0, upto + 1);
        assert(next.drop_last() =~= reviews.subrange(0, upto));
        lemma_count_grows(reviews, upto + 1, user);
    } else {
        assert(reviews.subrange(0, upto) =~= reviews);
    }
}

/// The trust score, in thousandths of a point, of a user with these
/// transactions and reviews.
pub fn compute_trust_score(inputs: TrustInputs) -> (score: u32)
    ensures
        score == inputs.score(),
        score <= MAX_SCORE,
{
    let t: i128 = if inputs.total_transactions > 0 {
        inputs.total_transactions as i128
    } else {
        1
    };
    let c: i128 = if inputs.review_count > 0 {
        inputs.review_count as i128
    } else {
        1
    };
    let bonus: i128 = if inputs.review_count < 10 {
        inputs.review_count as i128
    } else {
        10
    };
    let flat: i128 = 50 + bonus + if inputs.verified_seller {
        10
    } else {
        0
    };
    let s: i128 = inputs.successful_transactions as i128;
    let r: i128 = inputs.rating_sum as i128;
    assert(1 <= t * c <= 0x4000_0000_0000_0000) by (nonlinear_arith)
        requires
            1 <= t <= 0x7fff_ffff,
            1 <= c <= 0x7fff_ffff,
    ;
    let d: i128 = t * c;
    assert(-0x4000_0000_0000_0000_0000_0000 <= flat * d <= 0x4000_0000_0000_0000_0000_0000)
        by (nonlinear_arith)
        requires
            -0x8000_0000 <= flat <= 70,
            1 <= d <= 0x4000_0000_0000_0000,
    ;
    assert(1000 * flat * t * c == 1000 * (flat * d)) by (nonlinear_arith)
        requires
            d == t * c,
    ;
    assert(-0x4000_0000_0000_0000 <= s * c <= 0x4000_0000_0000_0000) by (nonlinear_arith)
        requires
            -0x8000_0000 <= s <= 0x7fff_ffff,
            1 <= c <= 0x7fff_ffff,
    ;
    assert(30000 * inputs.successful_transactions * c == 30000 * (s * c)) by (nonlinear_arith)
        requires
            s == inputs.successful_transactions,
    ;
    assert(-0x4000_0000_0000_0000_0000_0000 <= r * t <= 0x4000_0000_0000_0000_0000_0000)
        by (nonlinear_arith)
        requires
            -0x8000_0000_0000_0000 <= r <= 0x7fff_ffff_ffff_ffff,
            1 <= t <= 0x7fff_ffff,
    ;
    assert(6000 * inputs.rating_sum * t == 6000 * (r * t)) by (nonlinear_arith)
        requires
            r == inputs.rating_sum,
    ;
    let part_s: i128 = if inputs.total_transactions > 0 {
        30000 * (s * c)
    } else {
        0
    };
    let part_r: i128 = if inputs.review_count > 0 {
        6000 * (r * t)
    } else {
        0
    };
    let n: i128 = 1000 * (flat * d) + part_s + part_r;
    assert(n == inputs.numerator());
    assert(d == inputs.denominator());
    if n < 0 {
        assert(n / d < 0) by (nonlinear_arith)
            requires
                n < 0,
                d > 0,
        ;
        0
    } else {
        let exact: i128 = n / d;
        assert(exact >= 0) by (nonlinear_arith)
            requires
                exact == n / d,
                n >= 0,
                d > 0,
        ;
        if exact > MAX_SCORE as i128 {
            MAX_SCORE
        } else {
            exact as u32
        }
    }
}

impl TrustScoreView {
    /// What the score is computed from: the transactions of the record and
    /// the reviews of the aggregate.
    pub open spec fn inputs(self, reviews: ReviewAggregate) -> TrustInputs {
        TrustInputs {
            total_transactions: self.total_transactions,
            successful_transactions: self.successful_transactions,
            verified_seller: self.verified_seller,
            review_count: reviews.review_count,
            rating_sum: reviews.rating_sum,
        }
    }

    /// The record after a recomputation at `now`: the score, the sum of the
    /// ratings and the number of reviews are new, the rest stays.
    pub open spec fn recomputed(self, reviews: ReviewAggregate, now: i64) -> TrustScoreView {
        TrustScoreView {
            trust_score: self.inputs(reviews).score() as u32,
            rating_sum: reviews.rating_sum,
            total_reviews: reviews.review_count,
            last_calculated: now,
            ..self
        }
    }

    /// The record after one more transaction has been counted.
    pub open spec fn counted(self, successful: bool) -> TrustScoreView {
        TrustScoreView {
            total_transactions: (self.total_transactions + 1) as i32,
            successful_transactions: if successful {
                (self.successful_transactions + 1) as i32
            } else {
                self.successful_transactions
            },
            ..self
        }
    }

    /// The record of a user of whom nothing is known yet.
    pub open spec fn neutral(user: Seq<char>, now: i64) -> TrustScoreView {
        TrustScoreView {
            user_id: user,
            total_transactions: 0,
            successful_transactions: 0,
            rating_sum: 0,
            total_reviews: 0,
            verified_seller: false,
            trust_score: NEUTRAL_SCORE,
            last_calculated: now,
        }
    }
}

impl MarketplaceTrustScore {
    /// The record of a user of whom nothing is known yet: no transactions,
    /// no reviews, a score of 50.
    pub fn neutral(user_id: &str, now: i64) -> (record: MarketplaceTrustScore)
        ensures
            record@ == TrustScoreView::neutral(user_id@, now),
    {
        MarketplaceTrustScore {
            user_id: user_id.to_owned(),
            total_transactions: 0,
            successful_transactions: 0,
            rating_sum: 0,
            total_reviews: 0,
            verified_seller: false,
            trust_score: NEUTRAL_SCORE,
            last_calculated: now,
        }
    }

    /// The record that a user has after this call: the one that was there,
    /// or a neutral one where there was none.
    pub fn ensure_trust_score(existing: Option<MarketplaceTrustScore>, user_id: &str, now: i64) -> (record:
        MarketplaceTrustScore)
        ensures
            existing is Some ==> record@ == existing->0@,
            existing is None ==> record@ == TrustScoreView::neutral(user_id@, now),
    {
        match existing {
            Some(record) => record,
            None => MarketplaceTrustScore::neutral(user_id, now),
        }
    }

    /// Recomputes the score from the record's transactions and the given
    /// reviews, and takes over the sum and the number of the reviews.
    pub fn recalculate_trust_score(self, reviews: ReviewAggregate, now: i64) -> (record:
        MarketplaceTrustScore)
        ensures
            record@ == self@.recomputed(reviews, now),
            record.trust_score <= MAX_SCORE,
    {
        let score = compute_trust_score(
            TrustInputs {
                total_transactions: self.total_transactions,
                successful_transactions: self.successful_transactions,
                verified_seller: self.verified_seller,
                review_count: reviews.review_count,
                rating_sum: reviews.rating_sum,
            },
        );
        MarketplaceTrustScore {
            user_id: self.user_id,
            total_transactions: self.total_transactions,
            successful_transactions: self.successful_transactions,
            rating_sum: reviews.rating_sum,
            total_reviews: reviews.review_count,
            verified_seller: self.verified_seller,
            trust_score: score,
            last_calculated: now,
        }
    }

    /// Counts one more transaction, a successful one or not, and recomputes
    /// the score. A count that would leave its range is an error.
    pub fn update_trust_score_after_transaction(
        self,
        successful: bool,
        reviews: ReviewAggregate,
        now: i64,
    ) -> (r: Result<MarketplaceTrustScore, MarketError>)
        ensures
            self.total_transactions == i32::MAX || (successful && self.successful_transactions
                == i32::MAX) ==> r == Err::<MarketplaceTrustScore, MarketError>(
                MarketError::Internal(InternalReason::CounterOverflow),
            ),
            self.total_transactions < i32::MAX && (successful ==> self.successful_transactions
                < i32::MAX) ==> r is Ok && r->Ok_0@ == self@.counted(successful).recomputed(
                reviews,
                now,
            ),
    {
        if self.total_transactions == i32::MAX || (successful && self.successful_transactions
            == i32::MAX) {
            return Err(MarketError::Internal(InternalReason::CounterOverflow));
        }
        let counted = MarketplaceTrustScore {
            user_id: self.user_id,
            total_transactions: self.total_transactions + 1,
            successful_transactions: if successful {
                self.successful_transactions + 1
            } else {
                self.successful_transactions
            },
            rating_sum: self.rating_sum,
            total_reviews: self.total_reviews,
            verified_seller: self.verified_seller,
            trust_score: self.trust_score,
            last_calculated: self.last_calculated,
        };
        Ok(counted.recalculate_trust_score(reviews, now))
    }
}

/// The score lies between 0 and 100 points, whatever it is computed from.
pub proof fn lemma_score_in_range(inputs: TrustInputs)
    ensures
        0 <= inputs.score() <= MAX_SCORE,
{
}

/// Between its bounds the score is the exact score rounded down: it is at
/// most the exact score and less than a thousandth of a point below it.
pub proof fn lemma_score_rounds_down(inputs: TrustInputs)
    requires
        0 <= inputs.numerator(),
        inputs.numerator() < (MAX_SCORE + 1) * inputs.denominator(),
    ensures
        inputs.denominator() > 0,
        inputs.score() * inputs.denominator() <= inputs.numerator(),
        inputs.numerator() < (inputs.score() + 1) * inputs.denominator(),
{
    let n = inputs.numerator();
    let d = inputs.denominator();
    assert(d > 0) by (nonlinear_arith)
        requires
            d == (if inputs.total_transactions > 0 {
                inputs.total_transactions as int
            } else {
                1
            }) * (if inputs.review_count > 0 {
                inputs.review_count as int
            } else {
                1
            }),
    ;
    vstd::arithmetic::div_mod::lemma_fundamental_div_mod(n, d);
    vstd::arithmetic::div_mod::lemma_mod_pos_bound(n, d);
    let q = n / d;
    assert(q * d <= n < (q + 1) * d) by (nonlinear_arith)
        requires
            n == d * q + n % d,
            0 <= n % d < d,
    ;
    assert(0 <= q <= MAX_SCORE) by (nonlinear_arith)
        requires
            q * d <= n < (q + 1) * d,
            0 <= n < (MAX_SCORE + 1) * d,
            d > 0,
    ;
}

/// A user without transactions and reviews who is not verified has the
/// neutral score.
pub proof fn lemma_score_of_newcomer(inputs: TrustInputs)
    requires
        inputs.total_transactions == 0,
        inputs.review_count == 0,
        !inputs.verified_seller,
    ensures
        inputs.score() == NEUTRAL_SCORE,
{
    assert(inputs.denominator() == 1) by (nonlinear_arith)
        requires
            inputs.denominator() == 1int * 1int,
    ;
    assert(inputs.numerator() == 50000) by (nonlinear_arith)
        requires
            inputs.numerator() == 1000 * (50 + 0 + 0int) * 1 * 1 + 0 + 0,
    ;
}

/// Recomputing is idempotent: on the same reviews, a second recomputation
/// leaves the record as the first one made it.
pub proof fn lemma_recompute_idempotent(record: TrustScoreView, reviews: ReviewAggregate, now: i64)
    ensures
        record.recomputed(reviews, now).recomputed(reviews, now) == record.recomputed(
            reviews,
            now,
        ),
{
}

/// The score after a recomputation depends on the record's transactions and
/// on the reviews alone, not on the score that stood there before.
pub proof fn lemma_recompute_forgets_old_score(
    first: TrustScoreView,
    second: TrustScoreView,
    reviews: ReviewAggregate,
    now: i64,
)
    requires
        first.total_transactions == second.total_transactions,
        first.successful_transactions == second.successful_transactions,
        first.verified_seller == second.verified_seller,
    ensures
        first.recomputed(reviews, now).trust_score == second.recomputed(reviews, now).trust_score,
{
}

} // verus!
