//! Circuit breaker for NATS reconnects.
//!
//! State transitions:
//!   Closed   + consecutive failures reach the threshold  →  Open (pause for the open duration)
//!   Open     + pause elapsed                             →  HalfOpen (one attempt allowed)
//!   HalfOpen + success                                   →  Closed (counters reset)
//!   HalfOpen + failure                                   →  Open (timer restarted)
//!
//! Times are milliseconds of a [`MonotonicClock`]; the `*_at` methods take the reading.
use vstd::prelude::*;
use crate::clock::MonotonicClock;

verus! {

/// Consecutive failures that open the breaker.
pub const FAILURE_THRESHOLD: u32 = 3;
/// How long the breaker stays open, in milliseconds.
pub const OPEN_DURATION_MS: u64 = 30000;

/// Breaker state.
#[derive(Debug, Clone, Copy, PartialEq, Eq)]
pub enum BreakerState {
    Closed,
    /// Attempts are refused until the clock reads `until_ms`.
    Open { until_ms: u64 },
    HalfOpen,
}

/// Circuit breaker guarding connection attempts.
#[derive(Debug, Clone, Copy)]
pub struct CircuitBreaker {
    state: BreakerState,
    consecutive_failures: u32,
}

/// Abstract breaker: its state and the failures counted since it last opened or reset.
pub ghost struct BreakerView {
    pub state: BreakerState,
    pub failures: nat,
}

impl View for CircuitBreaker {
    type V = BreakerView;

    closed spec fn view(&self) -> BreakerView {
        BreakerView { state: self.state, failures: self.consecutive_failures as nat }
    }
}

/// Breaker after a failure at time `now`: a failed half-open trial, or a failure that
/// brings the count to the threshold, opens the breaker until `now` plus the open
/// duration (saturating) and clears the count; otherwise the count grows.
pub open spec fn spec_after_failure(b: BreakerView, now: u64) -> BreakerView {
    if b.state == BreakerState::HalfOpen || b.failures + 1 >= FAILURE_THRESHOLD {
        BreakerView {
            state: BreakerState::Open {
                until_ms: if now + OPEN_DURATION_MS > u64::MAX { u64::MAX } else { (now + OPEN_DURATION_MS) as u64 },
            },
            failures: 0,
        }
    } else {
        BreakerView { failures: b.failures + 1, ..b }
    }
}

/// Whether an attempt is allowed at time `now`: always, unless open and the pause has
/// not yet elapsed.
pub open spec fn spec_can_attempt(b: BreakerView, now: u64) -> bool {
    match b.state {
        BreakerState::Open { until_ms } => now >= until_ms,
        _ => true,
    }
}

/// Breaker after asking for an attempt at time `now`: an open breaker whose pause has
/// elapsed becomes half-open; otherwise nothing changes.
pub open spec fn spec_after_attempt_check(b: BreakerView, now: u64) -> BreakerView {
    match b.state {
        BreakerState::Open { until_ms } => if now >= until_ms {
            BreakerView { state: BreakerState::HalfOpen, ..b }
        } else {
            b
        },
        _ => b,
    }
}

/// Whether a breaker state is open.
pub open spec fn spec_is_open(b: BreakerView) -> bool {
    b.state is Open
}

impl CircuitBreaker {
    #[verifier::type_invariant]
    spec fn inv(self) -> bool {
        self.consecutive_failures < FAILURE_THRESHOLD
    }

    /// Well-formedness of the abstract breaker: the count stays under the threshold.
    pub open spec fn wf_view(b: BreakerView) -> bool {
        b.failures < FAILURE_THRESHOLD
    }

    /// A closed breaker with no failures.
    pub fn new() -> (r: Self)
        ensures
            r@ == (BreakerView { state: BreakerState::Closed, failures: 0 }),
    {
        CircuitBreaker { state: BreakerState::Closed, consecutive_failures: 0 }
    }

    /// Whether a connection attempt is permitted at time `now_ms`; an open breaker whose
    /// pause has elapsed moves to half-open.
    pub fn can_attempt_at(&mut self, now_ms: u64) -> (r: bool)
        ensures
            r == spec_can_attempt(old(self)@, now_ms),
            final(self)@ == spec_after_attempt_check(old(self)@, now_ms),
    {
        proof {
            use_type_invariant(&*self);
        }
        if let BreakerState::Open { until_ms } = self.state {
            if now_ms >= until_ms {
                self.state = BreakerState::HalfOpen;
                return true;
            }
            return false;
        }
        true
    }

    /// Whether a connection attempt is permitted now (see `can_attempt_at`).
    pub fn can_attempt(&mut self, clock: &MonotonicClock) -> (r: bool)
        ensures
            exists|now: u64|
                r == spec_can_attempt(old(self)@, now) && final(self)@ == spec_after_attempt_check(
                    old(self)@,
                    now,
                ),
    {
        let now = clock.now_ms();
        self.can_attempt_at(now)
    }

    /// A successful connection: closed, with the failure count reset.
    pub fn record_success(&mut self)
        ensures
            final(self)@ == (BreakerView { state: BreakerState::Closed, failures: 0 }),
    {
        proof {
            use_type_invariant(&*self);
        }
        self.state = BreakerState::Closed;
        self.consecutive_failures = 0;
    }

    /// A failed connection at time `now_ms` (see `spec_after_failure`).
    pub fn record_failure_at(&mut self, now_ms: u64)
        ensures
            final(self)@ == spec_after_failure(old(self)@, now_ms),
            Self::wf_view(final(self)@),
    {
        proof {
            use_type_invariant(&*self);
        }
        let n = self.consecutive_failures + 1;
        let half_open = match self.state {
            BreakerState::HalfOpen => true,
            _ => false,
        };
        if half_open || n >= FAILURE_THRESHOLD {
            self.state = BreakerState::Open { until_ms: now_ms.saturating_add(OPEN_DURATION_MS) };
            self.consecutive_failures = 0;
        } else {
            self.consecutive_failures = n;
        }
    }

    /// A failed connection now (see `record_failure_at`).
    pub fn record_failure(&mut self, clock: &MonotonicClock)
        ensures
            exists|now: u64| final(self)@ == spec_after_failure(old(self)@, now),
    {
        let now = clock.now_ms();
        self.record_failure_at(now);
    }

    /// Whether the breaker is open.
    pub fn is_open(&self) -> (r: bool)
        ensures
            r == spec_is_open(self@),
    {
        matches!(self.state, BreakerState::Open { .. })
    }
}

/// From a closed breaker with no pending failures, three consecutive failures open it,
/// and no attempt is allowed before the pause (counted from the last failure) has
/// elapsed.
pub proof fn law_opens_after_consecutive_failures(b: BreakerView, t1: u64, t2: u64, t3: u64, now: u64)
    requires
        b.failures == 0,
        b.state is Closed,
        t3 + OPEN_DURATION_MS <= u64::MAX,
        now < t3 + OPEN_DURATION_MS,
    ensures
        spec_is_open(spec_after_failure(spec_after_failure(spec_after_failure(b, t1), t2), t3)),
        !spec_can_attempt(spec_after_failure(spec_after_failure(spec_after_failure(b, t1), t2), t3), now),
{
}

/// Fewer failures than the threshold never open a closed breaker.
pub proof fn law_stays_closed_below_threshold(b: BreakerView, t1: u64, t2: u64)
    requires
        b.failures == 0,
        b.state is Closed,
    ensures
        !spec_is_open(spec_after_failure(spec_after_failure(b, t1), t2)),
        spec_can_attempt(spec_after_failure(spec_after_failure(b, t1), t2), t2),
{
}

/// An open breaker lets one attempt through once its pause has elapsed, and is then
/// half-open.
pub proof fn law_open_becomes_half_open_after_pause(b: BreakerView, now: u64)
    requires
        b.state matches BreakerState::Open { until_ms } && now >= until_ms,
    ensures
        spec_can_attempt(b, now),
        spec_after_attempt_check(b, now).state == BreakerState::HalfOpen,
{
}

/// A failed half-open trial reopens the breaker: it is open again, with the pause
/// restarted from the failure and the count cleared.
pub proof fn law_half_open_failure_reopens(b: BreakerView, now: u64, later: u64)
    requires
        b.state is HalfOpen,
        now + OPEN_DURATION_MS <= u64::MAX,
        later < now + OPEN_DURATION_MS,
    ensures
        spec_after_failure(b, now) == (BreakerView {
            state: BreakerState::Open { until_ms: (now + OPEN_DURATION_MS) as u64 },
            failures: 0,
        }),
        spec_is_open(spec_after_failure(b, now)),
        !spec_can_attempt(spec_after_failure(b, now), later),
{
}

} // verus!
