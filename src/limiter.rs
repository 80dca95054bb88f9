use vstd::prelude::*;
use vstd::rwlock::{RwLock, RwLockPredicate};
use crate::api::{Error, Result};
use crate::payload::RateLimitResource;

verus! {

/// The request budget of one upstream rate pool: at most `limit` requests
/// per window, `remaining` of them left in the current window, which ends
/// at `reset` (seconds since the Unix epoch).
#[derive(Debug, Clone, Copy, PartialEq, Eq, Structural)]
pub struct RateLimit {
    pub limit: u32,
    pub remaining: u32,
    pub reset: i64,
}

/// The seconds to sleep until just after `reset`, seen at `now`.
pub open spec fn wait_secs(reset: int, now: int) -> int {
    if reset - now + 1 <= u64::MAX {
        reset - now + 1
    } else {
        u64::MAX as int
    }
}

impl RateLimit {
    pub fn new(limit: u32, remaining: u32, reset: i64) -> (r: RateLimit)
        ensures
            r == (RateLimit { limit, remaining, reset }),
    {
        RateLimit { limit, remaining, reset }
    }

    /// No more requests remain than the window allows.
    pub open spec fn wf(self) -> bool {
        self.remaining <= self.limit
    }

    /// One attempt to take a request from the budget at time `now`: the
    /// budget after it, and `None` when the request may go, or the seconds
    /// to wait before trying again.
    pub open spec fn acquired(self, now: int) -> (RateLimit, Option<u64>) {
        if self.remaining > 0 {
            (RateLimit { remaining: (self.remaining - 1) as u32, ..self }, None)
        } else if self.reset < now {
            let rem = if self.limit > 0 {
                (self.limit - 1) as u32
            } else {
                0u32
            };
            (RateLimit { remaining: rem, ..self }, None)
        } else {
            (self, Some(wait_secs(self.reset as int, now) as u64))
        }
    }

    /// The budget after merging what the server reported: the limit is taken
    /// as reported, the remaining count never grows and the reset point never
    /// moves back.
    pub open spec fn reconciled(self, report: RateLimitResource) -> RateLimit {
        RateLimit {
            limit: report.limit,
            remaining: if report.remaining < self.remaining {
                report.remaining
            } else {
                self.remaining
            },
            reset: if report.reset > self.reset {
                report.reset
            } else {
                self.reset
            },
        }
    }

    /// Takes one request from the budget at time `now` (seconds since the
    /// epoch). A spent window whose reset lies in the past counts as renewed.
    /// Returns `None` when the request may go, else the seconds to wait.
    pub fn time_to_wait_at(&mut self, now: i64) -> (r: Option<u64>)
        ensures
            (*final(self), r) == old(self).acquired(now as int),
    {
        if self.remaining > 0 {
            self.remaining = self.remaining - 1;
            return None;
        }
        if self.reset < now {
            self.remaining = if self.limit > 0 {
                self.limit - 1
            } else {
                0
            };
            return None;
        }
        let secs: i128 = self.reset as i128 - now as i128 + 1;
        if secs <= u64::MAX as i128 {
            Some(secs as u64)
        } else {
            Some(u64::MAX)
        }
    }

    /// Merges a report of the server into the budget (see `reconciled`).
    pub fn reconcile(&mut self, report: &RateLimitResource)
        ensures
            *final(self) == old(self).reconciled(*report),
    {
        self.limit = report.limit;
        if report.remaining < self.remaining {
            self.remaining = report.remaining;
        }
        if report.reset > self.reset {
            self.reset = report.reset;
        }
    }
}

/// Reconciliation is a monotonic merge: a report with fewer remaining
/// requests than the budget always wins, one with more is ignored, the reset
/// point only moves forward, the limit is taken as reported, and a report
/// whose own counts agree keeps the budget consistent.
pub proof fn lemma_reconcile_monotone(b: RateLimit, report: RateLimitResource)
    ensures
        report.remaining < b.remaining ==> b.reconciled(report).remaining == report.remaining,
        report.remaining >= b.remaining ==> b.reconciled(report).remaining == b.remaining,
        b.reconciled(report).reset >= b.reset,
        b.reconciled(report).reset >= report.reset,
        b.reconciled(report).limit == report.limit,
        b.wf() && report.remaining <= report.limit ==> b.reconciled(report).wf(),
{
}

/// With requests left, an attempt goes at once and takes exactly one. With
/// none left before the reset, the attempt waits at least one second and
/// long enough that the reset has passed; an attempt once the wait is over
/// goes. Every attempt keeps the budget consistent.
pub proof fn lemma_acquire_waits_for_reset(b: RateLimit, now: i64, later: i64)
    requires
        b.reset < i64::MAX,
    ensures
        b.wf() ==> b.acquired(now as int).0.wf(),
        b.remaining > 0 ==> b.acquired(now as int) == (
            RateLimit { remaining: (b.remaining - 1) as u32, ..b },
            None::<u64>,
        ),
        b.remaining == 0 && now <= b.reset ==> (b.acquired(now as int).1 matches Some(d) && d >= 1
            && now + d > b.reset),
        b.remaining == 0 && now <= b.reset && later >= now + b.acquired(now as int).1->0
            ==> b.acquired(later as int).1 is None,
{
}

/// The budget that a freshly read rate pool allows: one request fewer than
/// the server reports, as the read itself was one, and never more than the
/// limit.
pub open spec fn initial_budget(r: RateLimitResource) -> RateLimit {
    let rem: int = if r.remaining > 0 {
        r.remaining - 1
    } else {
        0
    };
    RateLimit {
        limit: r.limit,
        remaining: if rem <= r.limit {
            rem as u32
        } else {
            r.limit
        },
        reset: r.reset,
    }
}

impl From<RateLimitResource> for RateLimit {
    fn from(r: RateLimitResource) -> (b: RateLimit) {
        let rem = if r.remaining > 0 {
            r.remaining - 1
        } else {
            0
        };
        let remaining = if rem <= r.limit {
            rem
        } else {
            r.limit
        };
        RateLimit { limit: r.limit, remaining, reset: r.reset }
    }
}

impl vstd::std_specs::convert::FromSpecImpl<RateLimitResource> for RateLimit {
    open spec fn obeys_from_spec() -> bool {
        true
    }

    open spec fn from_spec(v: RateLimitResource) -> RateLimit {
        initial_budget(v)
    }
}

/// Relies on `chrono::Utc::now` and `DateTime::timestamp`: the current time
/// in whole seconds since the Unix epoch. Nothing is known of its value.
#[verifier::external_body]
fn now_timestamp() -> (r: i64) {
    chrono::Utc::now().timestamp()
}

/// What the lock around a budget keeps true.
pub struct BudgetInv {}

impl RwLockPredicate<RateLimit> for BudgetInv {
    open spec fn inv(self, v: RateLimit) -> bool {
        v.wf()
    }
}

/// A budget shared by concurrent requests. Each operation holds the lock for
/// its own computation only, never while the caller sleeps or waits on the
/// network.
pub struct RateLimiter {
    state: RwLock<RateLimit, BudgetInv>,
}

impl RateLimiter {
    pub fn new(limit: RateLimit) -> (r: RateLimiter)
        requires
            limit.wf(),
    {
        RateLimiter { state: RwLock::new(limit, Ghost(BudgetInv {})) }
    }

    /// The budget as it stands now.
    pub fn snapshot(&self) -> (r: RateLimit)
        ensures
            r.wf(),
    {
        let handle = self.state.acquire_read();
        let r = *handle.borrow();
        handle.release_read();
        r
    }

    /// Takes one request from the shared budget, reading the clock under the
    /// lock. `None`: the request may go. `Some(d)`: nothing was taken; sleep
    /// `d` seconds (at least one) and try again.
    pub fn time_to_wait(&self) -> (r: Option<u64>)
        ensures
            r matches Some(d) ==> d >= 1,
    {
        let (mut budget, handle) = self.state.acquire_write();
        let now = now_timestamp();
        let r = budget.time_to_wait_at(now);
        handle.release_write(budget);
        r
    }

    /// Merges a report of the server into the shared budget. A report whose
    /// remaining count exceeds its own limit counts as reporting the limit.
    pub fn reset_limiter(&self, report: RateLimitResource) {
        let report = RateLimitResource {
            remaining: if report.remaining <= report.limit {
                report.remaining
            } else {
                report.limit
            },
            ..report
        };
        let (mut budget, handle) = self.state.acquire_write();
        budget.reconcile(&report);
        handle.release_write(budget);
    }
}

/// A decimal digit.
pub open spec fn is_digit(c: char) -> bool {
    '0' <= c && c <= '9'
}

/// The value of the decimal digits `s`.
pub open spec fn digits_value(s: Seq<char>) -> int
    decreases s.len(),
{
    if s.len() == 0 {
        0
    } else {
        10 * digits_value(s.drop_last()) + (s.last() as int - '0' as int)
    }
}

/// `s` is one or more decimal digits.
pub open spec fn all_digits(s: Seq<char>) -> bool {
    s.len() > 0 && forall|i: int| 0 <= i < s.len() ==> is_digit(#[trigger] s[i])
}

/// The value of an optional `+` followed by decimal digits.
pub open spec fn unsigned_decimal(s: Seq<char>) -> Option<int> {
    let d = if s.len() > 0 && s[0] == '+' {
        s.drop_first()
    } else {
        s
    };
    if all_digits(d) {
        Some(digits_value(d))
    } else {
        None
    }
}

/// The value of an optional `+` or `-` followed by decimal digits.
pub open spec fn signed_decimal(s: Seq<char>) -> Option<int> {
    if s.len() > 0 && s[0] == '-' {
        if all_digits(s.drop_first()) {
            Some(-digits_value(s.drop_first()))
        } else {
            None
        }
    } else {
        unsigned_decimal(s)
    }
}

/// Relies on `u32::from_str`, which accepts an optional `+` followed by
/// decimal digits only, and fails when the value exceeds `u32::MAX`.
#[verifier::external_body]
fn parse_u32(s: &str) -> (r: Option<u32>)
    ensures
        r is Some <==> (unsigned_decimal(s@) matches Some(v) && v <= u32::MAX),
        r matches Some(v) ==> unsigned_decimal(s@) == Some(v as int),
{
    s.parse::<u32>().ok()
}

/// Relies on `i64::from_str`, which accepts an optional `+` or `-` followed
/// by decimal digits only, and fails when the value is out of range.
#[verifier::external_body]
fn parse_i64(s: &str) -> (r: Option<i64>)
    ensures
        r is Some <==> (signed_decimal(s@) matches Some(v) && i64::MIN <= v <= i64::MAX),
        r matches Some(v) ==> signed_decimal(s@) == Some(v as int),
{
    s.parse::<i64>().ok()
}

/// `s` reads as a `u32`.
pub open spec fn u32_text(s: Seq<char>) -> bool {
    unsigned_decimal(s) matches Some(v) && v <= u32::MAX
}

/// `s` reads as an `i64`.
pub open spec fn i64_text(s: Seq<char>) -> bool {
    signed_decimal(s) matches Some(v) && i64::MIN <= v <= i64::MAX
}

/// The report that the header texts `l`, `m` and `t` give, if they read as
/// a limit, a remaining count and a reset time.
pub open spec fn report_of(l: Seq<char>, m: Seq<char>, t: Seq<char>) -> Option<RateLimitResource> {
    if u32_text(l) && u32_text(m) && i64_text(t) {
        Some(
            RateLimitResource {
                limit: unsigned_decimal(l)->0 as u32,
                remaining: unsigned_decimal(m)->0 as u32,
                reset: signed_decimal(t)->0 as i64,
            },
        )
    } else {
        None
    }
}

/// Reads a rate report from the texts of the three rate-limit headers of a
/// response. `Ok(None)` when one of them is absent: there is nothing to
/// reconcile. An error when all are present and one does not read as a
/// number of its type.
pub fn read_rate_headers(limit: Option<&str>, remaining: Option<&str>, reset: Option<&str>) -> (r:
    Result<Option<RateLimitResource>>)
    ensures
        (limit is None || remaining is None || reset is None) ==> r matches Ok(None),
        (limit is Some && remaining is Some && reset is Some) ==> match report_of(
            limit->0@,
            remaining->0@,
            reset->0@,
        ) {
            Some(rep) => r matches Ok(Some(got)) && got == rep,
            None => r is Err,
        },
{
    match (limit, remaining, reset) {
        (Some(l), Some(m), Some(t)) => {
            let limit = match parse_u32(l) {
                Some(v) => v,
                None => {
                    return Err(Error::Error("unreadable x-ratelimit-limit header".to_owned()));
                },
            };
            let remaining = match parse_u32(m) {
                Some(v) => v,
                None => {
                    return Err(Error::Error("unreadable x-ratelimit-remaining header".to_owned()));
                },
            };
            let reset = match parse_i64(t) {
                Some(v) => v,
                None => {
                    return Err(Error::Error("unreadable x-ratelimit-reset header".to_owned()));
                },
            };
            Ok(Some(RateLimitResource { limit, remaining, reset }))
        },
        _ => Ok(None),
    }
}

} // verus!
