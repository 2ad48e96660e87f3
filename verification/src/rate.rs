//! Per-key quota enforcement: a sliding-window counter admits requests until
//! a burst budget is spent, and starts a fresh window when the current time
//! passes the window's end. One reset boundary per period: traffic that
//! straddles a boundary can be admitted up to twice the burst budget, which
//! is this guard's intended admission behavior.

use vstd::prelude::*;

verus! {

/// A quota, read-only to the guard: how many admissions (`burst`) each
/// window of `period` milliseconds allows.
#[derive(Clone, Copy, Debug)]
pub struct SimpleQuota {
    pub period: u64,
    pub burst: usize,
}

/// Per-key window state: the time, in milliseconds, at which the window
/// resets, and the number of admissions made in it. The keyed store that
/// owns an instance must serialize access to it per key.
#[derive(Clone, Debug)]
pub struct SlidingWindow {
    /// The time at which the window resets.
    pub reset: u64,
    /// The number of requests admitted in the window.
    pub count: usize,
}

/// Addition on timestamps, clamped to the clock's range.
pub open spec fn sat_add(a: u64, b: u64) -> u64 {
    if a + b <= u64::MAX {
        (a + b) as u64
    } else {
        u64::MAX
    }
}

/// The window's transition on one admission check at time `now`: the window
/// resets (end moved one period past `now`, count cleared) exactly when
/// `now` lies strictly past its end; the request is admitted exactly when
/// the possibly-reset count is below the burst budget, and admission grows
/// the count by one; denial leaves the state as it stands.
pub open spec fn spec_verify(pre: SlidingWindow, quota: SimpleQuota, now: u64) -> (
    SlidingWindow,
    bool,
) {
    let w = if now > pre.reset {
        SlidingWindow { reset: sat_add(now, quota.period), count: 0 }
    } else {
        pre
    };
    if w.count < quota.burst {
        (SlidingWindow { reset: w.reset, count: (w.count + 1) as usize }, true)
    } else {
        (w, false)
    }
}

/// Relies on `std::time::SystemTime::now`, read as whole milliseconds since
/// the Unix epoch (zero if the clock sits before it): the current wall-clock
/// time; nothing is assumed of the value.
#[verifier::external_body]
fn now_millis() -> (r: u64) {
    match std::time::SystemTime::now().duration_since(std::time::UNIX_EPOCH) {
        Ok(d) => d.as_millis() as u64,
        Err(_) => 0,
    }
}

impl SlidingWindow {
    /// A window ending at `now`, with no admissions counted.
    pub fn new_at(now: u64) -> (r: Self)
        ensures
            r.reset == now,
            r.count == 0,
    {
        Self { reset: now, count: 0 }
    }

    /// A window ending at the current time, with no admissions counted.
    pub fn new() -> (r: Self)
        ensures
            r.count == 0,
    {
        Self::new_at(now_millis())
    }

    /// One admission check, taken at the caller-supplied time `now`: exactly
    /// the transition `spec_verify` describes. Admission never leaves the
    /// count above the burst budget.
    pub fn verify_at(&mut self, quota: &SimpleQuota, now: u64) -> (r: bool)
        ensures
            *final(self) == spec_verify(*old(self), *quota, now).0,
            r == spec_verify(*old(self), *quota, now).1,
            r ==> final(self).count <= quota.burst,
    {
        if now > self.reset {
            self.reset = if quota.period <= u64::MAX - now {
                now + quota.period
            } else {
                u64::MAX
            };
            self.count = 0;
        }
        if self.count < quota.burst {
            self.count = self.count + 1;
            true
        } else {
            false
        }
    }

    /// One admission check at the current time. Whatever the clock read, the
    /// outcome is one `spec_verify` transition from the state as it stood,
    /// and admission never leaves the count above the burst budget.
    pub fn verify(&mut self, quota: &SimpleQuota) -> (r: bool)
        ensures
            exists|now: u64|
                #![auto]
                *final(self) == spec_verify(*old(self), *quota, now).0 && r == spec_verify(
                    *old(self),
                    *quota,
                    now,
                ).1,
            r ==> final(self).count <= quota.burst,
    {
        let now = now_millis();
        let r = self.verify_at(quota, now);
        proof {
            assert(*self == spec_verify(*old(self), *quota, now).0 && r == spec_verify(
                *old(self),
                *quota,
                now,
            ).1);
        }
        r
    }
}

impl Default for SlidingWindow {
    /// The default window starts fresh at the current time.
    fn default() -> (r: Self)
        ensures
            r.count == 0,
    {
        Self::new()
    }
}

/// Reset law: one check moves the window's end one period past the check's
/// time exactly when that time lies strictly past the old end; otherwise the
/// end stands; and a denial inside the window changes nothing at all.
pub proof fn lemma_window_reset(pre: SlidingWindow, quota: SimpleQuota, now: u64)
    ensures
        now > pre.reset ==> spec_verify(pre, quota, now).0.reset == sat_add(now, quota.period),
        now <= pre.reset ==> spec_verify(pre, quota, now).0.reset == pre.reset,
        now <= pre.reset && !spec_verify(pre, quota, now).1 ==> spec_verify(pre, quota, now).0
            == pre,
{
}

} // verus!
