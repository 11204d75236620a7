//! The per-user, per-action limiter: a counter over a time window that allows
//! or denies an action and says when to try again.
//!
//! The store keeps one counter row for each pair of user and action. A check
//! takes the row as it was read, decides, and hands back the row to write;
//! the caller reads and writes the row as one atomic step.

use vstd::prelude::*;
use crate::clock::unix_now;
use crate::error::MarketError;
use crate::text::{decimal_text, i64_to_string, u64_to_string};

verus! {

/// The actions that are throttled.
#[derive(Clone, Copy, Debug, PartialEq, Eq, Hash, Structural)]
pub enum ActionType {
    CreateListing,
    CreateTransaction,
    CreateReview,
    SendMessage,
}

/// How many attempts a user has within one window.
#[derive(Clone, Copy, Debug, PartialEq, Eq, Structural)]
pub struct RateLimit {
    pub max_attempts: i32,
    pub window_minutes: i32,
}

/// The stored counter of one user for one action.
#[derive(Clone, Copy, Debug, PartialEq, Eq, Structural)]
pub struct RateLimitCounter {
    /// Attempts counted since `window_start`.
    pub count: i32,
    /// The instant at which the window began.
    pub window_start: i64,
}

/// The answer of the limiter.
#[derive(Clone, Copy, Debug, PartialEq, Eq, Structural)]
pub struct RateLimitResult {
    pub allowed: bool,
    pub remaining: i32,
    /// The instant at which the window ends.
    pub reset_at: i64,
    /// Seconds to wait before the next attempt; zero when allowed.
    pub retry_after: u64,
}

/// The answer of the limiter together with the counter row to store.
#[derive(Clone, Copy, Debug, PartialEq, Eq, Structural)]
pub struct RateLimitDecision {
    pub result: RateLimitResult,
    /// The row after the check. On a denial it is the row that was read.
    pub counter: RateLimitCounter,
}

/// The table of limits, one for each action.
#[derive(Clone, Copy, Debug, PartialEq, Eq, Structural)]
pub struct RateLimiter {
    pub create_listing: RateLimit,
    pub create_transaction: RateLimit,
    pub create_review: RateLimit,
    pub send_message: RateLimit,
}

/// The nearest `i64` to an integer.
pub open spec fn saturate_i64(x: int) -> i64 {
    if x < i64::MIN {
        i64::MIN
    } else if x > i64::MAX {
        i64::MAX
    } else {
        x as i64
    }
}

/// The nearest `i32` to an integer.
pub open spec fn saturate_i32(x: int) -> i32 {
    if x < i32::MIN {
        i32::MIN
    } else if x > i32::MAX {
        i32::MAX
    } else {
        x as i32
    }
}

/// The nearest `u64` to an integer.
pub open spec fn saturate_u64(x: int) -> u64 {
    if x < 0 {
        0
    } else if x > u64::MAX {
        u64::MAX
    } else {
        x as u64
    }
}

impl RateLimit {
    /// A limit makes sense when it grants at least one attempt over a window
    /// of at least one minute.
    pub open spec fn well_formed(self) -> bool {
        self.max_attempts >= 1 && self.window_minutes >= 1
    }

    /// The length of the window in seconds.
    pub open spec fn window_seconds(self) -> int {
        self.window_minutes as int * 60
    }

    /// A counter is live at `now` unless its window has expired, that is
    /// unless more than the window's length has passed since it began.
    pub open spec fn live(self, counter: RateLimitCounter, now: int) -> bool {
        now - counter.window_start <= self.window_seconds()
    }

    /// The end of the counter's window, before it is fitted into an `i64`.
    pub open spec fn window_end(self, counter: RateLimitCounter) -> int {
        counter.window_start + self.window_seconds()
    }

    /// The seconds left until the counter's window ends, floored at zero.
    pub open spec fn seconds_until_reset(self, counter: RateLimitCounter, now: int) -> int {
        if self.window_end(counter) - now < 0 {
            0
        } else {
            self.window_end(counter) - now
        }
    }

    /// What a check that counts the attempt decides.
    ///
    /// Without a live counter the attempt opens a new window and is allowed.
    /// With a live counter below the maximum the attempt is counted and
    /// allowed. Otherwise it is denied, the counter stays as it is, and the
    /// caller is told how long the window still lasts.
    pub open spec fn check_and_increment(
        self,
        counter: Option<RateLimitCounter>,
        now: i64,
    ) -> RateLimitDecision {
        if counter is Some && self.live(counter->0, now as int) {
            let c = counter->0;
            if c.count < self.max_attempts {
                RateLimitDecision {
                    result: RateLimitResult {
                        allowed: true,
                        remaining: saturate_i32(self.max_attempts - (c.count + 1)),
                        reset_at: saturate_i64(self.window_end(c)),
                        retry_after: 0,
                    },
                    counter: RateLimitCounter {
                        count: (c.count + 1) as i32,
                        window_start: c.window_start,
                    },
                }
            } else {
                RateLimitDecision {
                    result: RateLimitResult {
                        allowed: false,
                        remaining: 0,
                        reset_at: saturate_i64(self.window_end(c)),
                        retry_after: saturate_u64(self.seconds_until_reset(c, now as int)),
                    },
                    counter: c,
                }
            }
        } else {
            RateLimitDecision {
                result: RateLimitResult {
                    allowed: true,
                    remaining: saturate_i32(self.max_attempts - 1),
                    reset_at: saturate_i64(now + self.window_seconds()),
                    retry_after: 0,
                },
                counter: RateLimitCounter { count: 1, window_start: now },
            }
        }
    }

    /// What a check that does not count the attempt answers.
    pub open spec fn check_only(self, counter: Option<RateLimitCounter>, now: i64) -> RateLimitResult {
        if counter is Some && self.live(counter->0, now as int) {
            let c = counter->0;
            let allowed = c.count < self.max_attempts;
            RateLimitResult {
                allowed,
                remaining: if self.max_attempts - c.count < 0 {
                    0
                } else {
                    saturate_i32(self.max_attempts - c.count)
                },
                reset_at: saturate_i64(self.window_end(c)),
                retry_after: if allowed {
                    0
                } else {
                    saturate_u64(self.seconds_until_reset(c, now as int))
                },
            }
        } else {
            RateLimitResult {
                allowed: true,
                remaining: self.max_attempts,
                reset_at: saturate_i64(now + self.window_seconds()),
                retry_after: 0,
            }
        }
    }

    /// The counter after the attempts at `times`, made one after the other,
    /// each of them counted by `check_and_increment`.
    pub open spec fn after_attempts(
        self,
        counter: Option<RateLimitCounter>,
        times: Seq<i64>,
    ) -> Option<RateLimitCounter>
        decreases times.len(),
    {
        if times.len() == 0 {
            counter
        } else {
            Some(
                self.check_and_increment(
                    self.after_attempts(counter, times.drop_last()),
                    times.last(),
                ).counter,
            )
        }
    }
}

fn fit_i64(x: i128) -> (r: i64)
    ensures
        r == saturate_i64(x as int),
{
    if x < i64::MIN as i128 {
        i64::MIN
    } else if x > i64::MAX as i128 {
        i64::MAX
    } else {
        x as i64
    }
}

fn fit_i32(x: i64) -> (r: i32)
    ensures
        r == saturate_i32(x as int),
{
    if x < i32::MIN as i64 {
        i32::MIN
    } else if x > i32::MAX as i64 {
        i32::MAX
    } else {
        x as i32
    }
}

fn fit_u64(x: i128) -> (r: u64)
    ensures
        r == saturate_u64(x as int),
{
    if x < 0 {
        0
    } else if x > u64::MAX as i128 {
        u64::MAX
    } else {
        x as u64
    }
}

impl RateLimiter {
    /// The limits of the marketplace: ten listings, fifty purchases, twenty
    /// reviews and a hundred messages, each per hour.
    pub open spec fn new_spec() -> RateLimiter {
        RateLimiter {
            create_listing: RateLimit { max_attempts: 10, window_minutes: 60 },
            create_transaction: RateLimit { max_attempts: 50, window_minutes: 60 },
            create_review: RateLimit { max_attempts: 20, window_minutes: 60 },
            send_message: RateLimit { max_attempts: 100, window_minutes: 60 },
        }
    }

    /// The limits of the marketplace: ten listings, fifty purchases, twenty
    /// reviews and a hundred messages, each per hour.
    #[verifier::when_used_as_spec(new_spec)]
    pub fn new() -> (limiter: RateLimiter)
        ensures
            limiter == RateLimiter::new_spec(),
            limiter.well_formed(),
    {
        RateLimiter {
            create_listing: RateLimit { max_attempts: 10, window_minutes: 60 },
            create_transaction: RateLimit { max_attempts: 50, window_minutes: 60 },
            create_review: RateLimit { max_attempts: 20, window_minutes: 60 },
            send_message: RateLimit { max_attempts: 100, window_minutes: 60 },
        }
    }

    /// Every limit of the table makes sense.
    pub open spec fn well_formed(self) -> bool {
        &&& self.create_listing.well_formed()
        &&& self.create_transaction.well_formed()
        &&& self.create_review.well_formed()
        &&& self.send_message.well_formed()
    }

    /// The limit that the table holds for an action.
    pub open spec fn spec_limit_for(&self, action: ActionType) -> RateLimit {
        match action {
            ActionType::CreateListing => self.create_listing,
            ActionType::CreateTransaction => self.create_transaction,
            ActionType::CreateReview => self.create_review,
            ActionType::SendMessage => self.send_message,
        }
    }

    /// The limit that the table holds for an action.
    #[verifier::when_used_as_spec(spec_limit_for)]
    pub fn limit_for(&self, action: ActionType) -> (limit: RateLimit)
        ensures
            limit == self.spec_limit_for(action),
    {
        match action {
            ActionType::CreateListing => self.create_listing,
            ActionType::CreateTransaction => self.create_transaction,
            ActionType::CreateReview => self.create_review,
            ActionType::SendMessage => self.send_message,
        }
    }

    /// Checks whether the action is allowed now and counts the attempt.
    ///
    /// `counter` is the stored row of this user and action, if there is one.
    /// The instant is read from the wall clock, so the contract holds for
    /// some instant `now`; `check_and_increment_at` is the same decision
    /// with the instant given.
    pub fn check_and_increment(
        &self,
        counter: Option<RateLimitCounter>,
        action: ActionType,
    ) -> (decision: RateLimitDecision)
        ensures
            exists|now: i64|
                decision == self.limit_for(action).check_and_increment(counter, now),
    {
        let now = unix_now();
        self.check_and_increment_at(counter, action, now)
    }

    /// Checks whether the action is allowed at `now` and counts the attempt.
    pub fn check_and_increment_at(
        &self,
        counter: Option<RateLimitCounter>,
        action: ActionType,
        now: i64,
    ) -> (decision: RateLimitDecision)
        ensures
            decision == self.limit_for(action).check_and_increment(counter, now),
    {
        let limit = self.limit_for(action);
        let window: i128 = limit.window_minutes as i128 * 60;
        match counter {
            Some(c) => {
                if now as i128 - c.window_start as i128 <= window {
                    let reset_at = fit_i64(c.window_start as i128 + window);
                    if c.count < limit.max_attempts {
                        let new_count: i32 = c.count + 1;
                        return RateLimitDecision {
                            result: RateLimitResult {
                                allowed: true,
                                remaining: fit_i32(limit.max_attempts as i64 - new_count as i64),
                                reset_at,
                                retry_after: 0,
                            },
                            counter: RateLimitCounter {
                                count: new_count,
                                window_start: c.window_start,
                            },
                        };
                    }
                    let left: i128 = c.window_start as i128 + window - now as i128;
                    return RateLimitDecision {
                        result: RateLimitResult {
                            allowed: false,
                            remaining: 0,
                            reset_at,
                            retry_after: fit_u64(if left < 0 { 0 } else { left }),
                        },
                        counter: c,
                    };
                }
            },
            None => {},
        }
        RateLimitDecision {
            result: RateLimitResult {
                allowed: true,
                remaining: fit_i32(limit.max_attempts as i64 - 1),
                reset_at: fit_i64(now as i128 + window),
                retry_after: 0,
            },
            counter: RateLimitCounter { count: 1, window_start: now },
        }
    }

    /// Checks whether the action would be allowed now, without counting it.
    /// The instant is read from the wall clock; `check_only_at` is the same
    /// answer with the instant given.
    pub fn check_only(&self, counter: Option<RateLimitCounter>, action: ActionType) -> (result:
        RateLimitResult)
        ensures
            exists|now: i64| result == self.limit_for(action).check_only(counter, now),
    {
        let now = unix_now();
        self.check_only_at(counter, action, now)
    }

    /// Checks whether the action would be allowed at `now`, without counting
    /// it.
    pub fn check_only_at(
        &self,
        counter: Option<RateLimitCounter>,
        action: ActionType,
        now: i64,
    ) -> (result: RateLimitResult)
        ensures
            result == self.limit_for(action).check_only(counter, now),
    {
        let limit = self.limit_for(action);
        let window: i128 = limit.window_minutes as i128 * 60;
        match counter {
            Some(c) => {
                if now as i128 - c.window_start as i128 <= window {
                    let allowed = c.count < limit.max_attempts;
                    let spare: i64 = limit.max_attempts as i64 - c.count as i64;
                    let left: i128 = c.window_start as i128 + window - now as i128;
                    return RateLimitResult {
                        allowed,
                        remaining: if spare < 0 { 0 } else { fit_i32(spare) },
                        reset_at: fit_i64(c.window_start as i128 + window),
                        retry_after: if allowed {
                            0
                        } else {
                            fit_u64(if left < 0 { 0 } else { left })
                        },
                    };
                }
            },
            None => {},
        }
        RateLimitResult {
            allowed: true,
            remaining: limit.max_attempts,
            reset_at: fit_i64(now as i128 + window),
            retry_after: 0,
        }
    }

    /// Whether the periodic sweep may remove the counter at `now`: its window
    /// has expired, so the next check would open a new window anyway.
    pub fn cleanup_old_entries(&self, counter: RateLimitCounter, action: ActionType, now: i64) -> (stale:
        bool)
        ensures
            stale == !self.limit_for(action).live(counter, now as int),
            stale ==> forall|later: i64|
                later >= now ==> #[trigger] self.limit_for(action).check_and_increment(
                    Some(counter),
                    later,
                ) == self.limit_for(action).check_and_increment(None, later),
    {
        let limit = self.limit_for(action);
        let window: i128 = limit.window_minutes as i128 * 60;
        now as i128 - counter.window_start as i128 > window
    }

    /// The name under which the store files an action.
    pub fn action_to_string(&self, action: &ActionType) -> (name: &'static str)
        ensures
            name@ == action_name(*action),
    {
        match action {
            ActionType::CreateListing => "create_listing",
            ActionType::CreateTransaction => "create_transaction",
            ActionType::CreateReview => "create_review",
            ActionType::SendMessage => "send_message",
        }
    }
}

/// The name under which the store files an action.
pub open spec fn action_name(action: ActionType) -> Seq<char> {
    match action {
        ActionType::CreateListing => "create_listing"@,
        ActionType::CreateTransaction => "create_transaction"@,
        ActionType::CreateReview => "create_review"@,
        ActionType::SendMessage => "send_message"@,
    }
}

impl RateLimitResult {
    /// The answer as a step of an operation: nothing when the action is
    /// allowed, `RateLimited` with the time to wait when it is denied.
    pub fn to_result(&self) -> (r: Result<(), MarketError>)
        ensures
            self.allowed ==> r == Ok::<(), MarketError>(()),
            !self.allowed ==> r == Err::<(), MarketError>(
                MarketError::RateLimited { retry_after: self.retry_after },
            ),
    {
        if self.allowed {
            Ok(())
        } else {
            Err(MarketError::RateLimited { retry_after: self.retry_after })
        }
    }

    /// The response headers that report the state of the limiter.
    pub fn to_headers(&self) -> (headers: Vec<(&'static str, String)>)
        ensures
            headers@.len() == 4,
            headers@[0].0@ == "X-RateLimit-Limit"@,
            headers@[0].1@ == decimal_text(self.remaining as int),
            headers@[1].0@ == "X-RateLimit-Remaining"@,
            headers@[1].1@ == decimal_text(self.remaining as int),
            headers@[2].0@ == "X-RateLimit-Reset"@,
            headers@[2].1@ == decimal_text(self.reset_at as int),
            headers@[3].0@ == "Retry-After"@,
            headers@[3].1@ == decimal_text(self.retry_after as int),
    {
        let mut headers: Vec<(&'static str, String)> = Vec::new();
        headers.push(("X-RateLimit-Limit", i64_to_string(self.remaining as i64)));
        headers.push(("X-RateLimit-Remaining", i64_to_string(self.remaining as i64)));
        headers.push(("X-RateLimit-Reset", i64_to_string(self.reset_at)));
        headers.push(("Retry-After", u64_to_string(self.retry_after)));
        headers
    }
}

/// All the instants lie in the window that the first of them opens.
pub open spec fn within_window_of_first(limit: RateLimit, times: Seq<i64>) -> bool {
    forall|i: int|
        0 <= i < times.len() ==> times[0] <= #[trigger] times[i] && times[i] - times[0]
            < limit.window_seconds()
}

/// An attempt that finds no counter, or one whose window has expired, is
/// allowed, opens a window at that instant, and leaves all but one of the
/// attempts of the limit.
pub proof fn lemma_first_attempt_of_a_window(
    limit: RateLimit,
    counter: Option<RateLimitCounter>,
    now: i64,
)
    requires
        limit.well_formed(),
        counter is None || !limit.live(counter->0, now as int),
    ensures
        limit.check_and_increment(counter, now).result.allowed,
        limit.check_and_increment(counter, now).result.remaining == limit.max_attempts - 1,
        limit.check_and_increment(counter, now).result.retry_after == 0,
        limit.check_and_increment(counter, now).counter == (RateLimitCounter {
            count: 1,
            window_start: now,
        }),
{
}

/// An attempt that finds a counter at or above the maximum, before the end of
/// its window, is denied with a positive time to wait, and the counter stays
/// as it is.
pub proof fn lemma_exhausted_counter_denies(limit: RateLimit, counter: RateLimitCounter, now: i64)
    requires
        counter.count >= limit.max_attempts,
        now - counter.window_start < limit.window_seconds(),
    ensures
        !limit.check_and_increment(Some(counter), now).result.allowed,
        limit.check_and_increment(Some(counter), now).result.retry_after > 0,
        limit.check_and_increment(Some(counter), now).result.retry_after == saturate_u64(
            counter.window_start + limit.window_seconds() - now,
        ),
        limit.check_and_increment(Some(counter), now).counter == counter,
{
}

/// Within one window every attempt up to the maximum is allowed and counted:
/// after `n` attempts the counter stands at `n`, and the last of them was
/// told that `max_attempts - n` are left.
pub proof fn lemma_attempts_within_quota(limit: RateLimit, times: Seq<i64>)
    requires
        limit.well_formed(),
        1 <= times.len() <= limit.max_attempts,
        within_window_of_first(limit, times),
    ensures
        limit.after_attempts(None, times) == Some(
            RateLimitCounter { count: times.len() as i32, window_start: times[0] },
        ),
        limit.check_and_increment(
            limit.after_attempts(None, times.drop_last()),
            times.last(),
        ).result.allowed,
        limit.check_and_increment(
            limit.after_attempts(None, times.drop_last()),
            times.last(),
        ).result.remaining == limit.max_attempts - times.len(),
    decreases times.len(),
{
    let earlier = times.drop_last();
    if times.len() == 1 {
        assert(earlier.len() == 0);
        assert(limit.after_attempts(None, earlier) == None::<RateLimitCounter>);
    } else {
        assert(earlier[0] == times[0]);
        assert forall|i: int| 0 <= i < earlier.len() implies earlier[0] <= #[trigger] earlier[i]
            && earlier[i] - earlier[0] < limit.window_seconds() by {
            assert(earlier[i] == times[i]);
        }
        lemma_attempts_within_quota(limit, earlier);
        assert(times.last() == times[times.len() - 1]);
    }
}

/// Within one window the attempt after the last one of the quota is denied
/// with a positive time to wait, and it is not counted.
pub proof fn lemma_attempt_beyond_quota(limit: RateLimit, times: Seq<i64>)
    requires
        limit.well_formed(),
        times.len() == limit.max_attempts + 1,
        within_window_of_first(limit, times),
    ensures
        !limit.check_and_increment(
            limit.after_attempts(None, times.drop_last()),
            times.last(),
        ).result.allowed,
        limit.check_and_increment(
            limit.after_attempts(None, times.drop_last()),
            times.last(),
        ).result.retry_after > 0,
        limit.after_attempts(None, times) == limit.after_attempts(None, times.drop_last()),
{
    let earlier = times.drop_last();
    assert(earlier[0] == times[0]);
    assert forall|i: int| 0 <= i < earlier.len() implies earlier[0] <= #[trigger] earlier[i]
        && earlier[i] - earlier[0] < limit.window_seconds() by {
        assert(earlier[i] == times[i]);
    }
    lemma_attempts_within_quota(limit, earlier);
    assert(times.last() == times[times.len() - 1]);
}

} // verus!
