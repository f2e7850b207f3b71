use vstd::prelude::*;

verus! {

/// `a + b`, or `u64::MAX` when the sum does not fit.
pub open spec fn sat_add(a: u64, b: u64) -> u64 {
    if a + b > u64::MAX {
        u64::MAX
    } else {
        (a + b) as u64
    }
}

/// Mathematical state of one quota window.
pub struct WindowModel {
    /// Permits granted per window.
    pub limit: u64,
    /// Permits still available in the current window.
    pub remaining: u64,
    /// Instant (ms) at which the current window ends.
    pub reset_at: u64,
    /// Length (ms) of a window.
    pub duration: u64,
}

impl WindowModel {
    pub open spec fn wf(self) -> bool {
        1 <= self.limit && self.remaining <= self.limit
    }

    /// The window as seen at `now`: refilled when its reset instant has passed.
    pub open spec fn refreshed(self, now: u64) -> WindowModel {
        if now >= self.reset_at {
            WindowModel {
                limit: self.limit,
                remaining: self.limit,
                reset_at: sat_add(now, self.duration),
                duration: self.duration,
            }
        } else {
            self
        }
    }

    /// The window after one permit is taken from it.
    pub open spec fn taken(self) -> WindowModel {
        WindowModel {
            limit: self.limit,
            remaining: (self.remaining - 1) as u64,
            reset_at: self.reset_at,
            duration: self.duration,
        }
    }

    /// The window after a server correction of its remaining count.
    pub open spec fn corrected(self, remaining: u64) -> WindowModel {
        WindowModel {
            limit: self.limit,
            remaining: if remaining < self.limit { remaining } else { self.limit },
            reset_at: self.reset_at,
            duration: self.duration,
        }
    }
}

/// Outcome of asking one window for a permit.
#[derive(Clone, Copy, Debug, PartialEq, Eq, Structural)]
pub enum Decision {
    Granted,
    MustWaitUntil(u64),
}

/// A counter of permits that refills to `limit` every `duration` milliseconds.
#[derive(Clone, Copy, Debug)]
pub struct QuotaWindow {
    limit: u64,
    remaining: u64,
    reset_at: u64,
    duration: u64,
}

impl View for QuotaWindow {
    type V = WindowModel;

    closed spec fn view(&self) -> WindowModel {
        WindowModel {
            limit: self.limit,
            remaining: self.remaining,
            reset_at: self.reset_at,
            duration: self.duration,
        }
    }
}

impl QuotaWindow {
    /// A full window of `limit` permits whose first period starts at `now`.
    pub fn new(limit: u64, duration: u64, now: u64) -> (r: QuotaWindow)
        requires
            1 <= limit,
        ensures
            r@ == (WindowModel { limit, remaining: limit, reset_at: sat_add(now, duration), duration }),
            r@.wf(),
    {
        QuotaWindow { limit, remaining: limit, reset_at: now.saturating_add(duration), duration }
    }

    pub fn limit(&self) -> (r: u64)
        ensures
            r == self@.limit,
    {
        self.limit
    }

    pub fn remaining(&self) -> (r: u64)
        ensures
            r == self@.remaining,
    {
        self.remaining
    }

    pub fn reset_at(&self) -> (r: u64)
        ensures
            r == self@.reset_at,
    {
        self.reset_at
    }

    /// Refills the window if its reset instant has been reached at `now`.
    pub fn refresh(&mut self, now: u64)
        requires
            old(self)@.wf(),
        ensures
            final(self)@ == old(self)@.refreshed(now),
            final(self)@.wf(),
    {
        if now >= self.reset_at {
            self.remaining = self.limit;
            self.reset_at = now.saturating_add(self.duration);
        }
    }

    /// Takes one permit; the caller has checked that one is left.
    pub fn take(&mut self)
        requires
            old(self)@.wf(),
            old(self)@.remaining > 0,
        ensures
            final(self)@ == old(self)@.taken(),
            final(self)@.wf(),
    {
        self.remaining = self.remaining - 1;
    }

    /// Overwrites the remaining count with a server-reported value, clamped to the limit.
    pub fn correct(&mut self, remaining: u64)
        requires
            old(self)@.wf(),
        ensures
            final(self)@ == old(self)@.corrected(remaining),
            final(self)@.wf(),
    {
        self.remaining = if remaining < self.limit { remaining } else { self.limit };
    }

    /// Refreshes the window at `now`, then grants and consumes a permit if one
    /// is left, or names the instant at which the window refills.
    pub fn try_consume(&mut self, now: u64) -> (r: Decision)
        requires
            old(self)@.wf(),
        ensures
            final(self)@.wf(),
            old(self)@.refreshed(now).remaining > 0 ==> r == Decision::Granted
                && final(self)@ == old(self)@.refreshed(now).taken(),
            old(self)@.refreshed(now).remaining == 0 ==> r == Decision::MustWaitUntil(
                old(self)@.refreshed(now).reset_at,
            ) && final(self)@ == old(self)@.refreshed(now),
    {
        self.refresh(now);
        if self.remaining > 0 {
            self.take();
            Decision::Granted
        } else {
            Decision::MustWaitUntil(self.reset_at)
        }
    }
}

} // verus!
