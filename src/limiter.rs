use vstd::prelude::*;

use crate::quota::{sat_add, QuotaWindow, WindowModel};

verus! {

/// Length (ms) of the short window.
pub const SECOND_WINDOW_MS: u64 = 1000;

/// Length (ms) of the long window.
pub const HOUR_WINDOW_MS: u64 = 3_600_000;

/// Milliseconds in a second, for retry directives given in seconds.
pub const MS_PER_SECOND: u64 = 1000;

/// What a caller of `acquire` does next.
#[derive(Clone, Copy, Debug, PartialEq, Eq, Structural)]
pub enum Control {
    /// A permit was granted and consumed from both windows.
    Permit,
    /// Sleep until this instant (ms), then ask again.
    Sleep(u64),
    /// An expired retry directive was cleared: ask again at once.
    Recheck,
}

/// Mathematical state of a rate limiter.
pub struct LimiterModel {
    pub sec: WindowModel,
    pub hour: WindowModel,
    pub retry_until: Option<u64>,
}

impl LimiterModel {
    pub open spec fn wf(self) -> bool {
        self.sec.wf() && self.hour.wf()
    }

    /// The instant to sleep until when at least one refreshed window is empty.
    pub open spec fn wake_at(sec: WindowModel, hour: WindowModel) -> u64 {
        if sec.remaining == 0 && hour.remaining == 0 {
            if sec.reset_at <= hour.reset_at {
                sec.reset_at
            } else {
                hour.reset_at
            }
        } else if sec.remaining == 0 {
            sec.reset_at
        } else {
            hour.reset_at
        }
    }

    /// One decision of `acquire` at instant `now`: the new state and the control.
    pub open spec fn decide(self, now: u64) -> (LimiterModel, Control) {
        match self.retry_until {
            Some(deadline) => {
                if now < deadline {
                    (self, Control::Sleep(deadline))
                } else {
                    (LimiterModel { sec: self.sec, hour: self.hour, retry_until: None }, Control::Recheck)
                }
            },
            None => {
                let sec = self.sec.refreshed(now);
                let hour = self.hour.refreshed(now);
                if sec.remaining > 0 && hour.remaining > 0 {
                    (LimiterModel { sec: sec.taken(), hour: hour.taken(), retry_until: None }, Control::Permit)
                } else {
                    (
                        LimiterModel { sec, hour, retry_until: None },
                        Control::Sleep(LimiterModel::wake_at(sec, hour)),
                    )
                }
            },
        }
    }

    /// The state after response metadata observed at `now` is folded in.
    pub open spec fn synced(
        self,
        sec_remaining: Option<u64>,
        hour_remaining: Option<u64>,
        retry_after_secs: Option<u64>,
        now: u64,
    ) -> LimiterModel {
        LimiterModel {
            sec: match sec_remaining {
                Some(r) => self.sec.corrected(r),
                None => self.sec,
            },
            hour: match hour_remaining {
                Some(r) => self.hour.corrected(r),
                None => self.hour,
            },
            retry_until: match retry_after_secs {
                Some(s) => Some(sat_add(now, sat_mul(s, MS_PER_SECOND))),
                None => self.retry_until,
            },
        }
    }
}

/// `a * b`, or `u64::MAX` when the product does not fit.
pub open spec fn sat_mul(a: u64, b: u64) -> u64 {
    if a * b > u64::MAX {
        u64::MAX
    } else {
        (a * b) as u64
    }
}

fn saturating_mul(a: u64, b: u64) -> (r: u64)
    ensures
        r == sat_mul(a, b),
{
    match a.checked_mul(b) {
        Some(p) => p,
        None => u64::MAX,
    }
}

/// Two quota windows, one short and one long, plus an optional server-issued
/// "retry after" deadline that overrides them both.
#[derive(Clone, Copy, Debug)]
pub struct RateLimiter {
    sec: QuotaWindow,
    hour: QuotaWindow,
    retry_until: Option<u64>,
}

impl View for RateLimiter {
    type V = LimiterModel;

    closed spec fn view(&self) -> LimiterModel {
        LimiterModel { sec: self.sec@, hour: self.hour@, retry_until: self.retry_until }
    }
}

impl RateLimiter {
    /// A limiter granting `per_second_limit` permits per second and
    /// `hourly_limit` per hour, with both windows starting at `now`.
    pub fn new(per_second_limit: u64, hourly_limit: u64, now: u64) -> (r: RateLimiter)
        requires
            1 <= per_second_limit,
            1 <= hourly_limit,
        ensures
            r@.wf(),
            r@.sec == (WindowModel {
                limit: per_second_limit,
                remaining: per_second_limit,
                reset_at: sat_add(now, SECOND_WINDOW_MS),
                duration: SECOND_WINDOW_MS,
            }),
            r@.hour == (WindowModel {
                limit: hourly_limit,
                remaining: hourly_limit,
                reset_at: sat_add(now, HOUR_WINDOW_MS),
                duration: HOUR_WINDOW_MS,
            }),
            r@.retry_until == None::<u64>,
    {
        RateLimiter::with_windows(per_second_limit, hourly_limit, SECOND_WINDOW_MS, HOUR_WINDOW_MS, now)
    }

    /// A limiter whose two windows last `sec_window_ms` and `hour_window_ms`.
    pub fn with_windows(
        per_second_limit: u64,
        hourly_limit: u64,
        sec_window_ms: u64,
        hour_window_ms: u64,
        now: u64,
    ) -> (r: RateLimiter)
        requires
            1 <= per_second_limit,
            1 <= hourly_limit,
        ensures
            r@.wf(),
            r@.sec == (WindowModel {
                limit: per_second_limit,
                remaining: per_second_limit,
                reset_at: sat_add(now, sec_window_ms),
                duration: sec_window_ms,
            }),
            r@.hour == (WindowModel {
                limit: hourly_limit,
                remaining: hourly_limit,
                reset_at: sat_add(now, hour_window_ms),
                duration: hour_window_ms,
            }),
            r@.retry_until == None::<u64>,
    {
        RateLimiter {
            sec: QuotaWindow::new(per_second_limit, sec_window_ms, now),
            hour: QuotaWindow::new(hourly_limit, hour_window_ms, now),
            retry_until: None,
        }
    }

    pub fn seconds_window(&self) -> (r: QuotaWindow)
        ensures
            r@ == self@.sec,
    {
        self.sec
    }

    pub fn hours_window(&self) -> (r: QuotaWindow)
        ensures
            r@ == self@.hour,
    {
        self.hour
    }

    pub fn retry_until(&self) -> (r: Option<u64>)
        ensures
            r == self@.retry_until,
    {
        self.retry_until
    }

    /// One step of `acquire` at instant `now`, taken under the limiter's lock.
    /// An unexpired retry directive wins over the windows; otherwise both
    /// windows are refreshed and a permit is taken from both, or the caller is
    /// told to sleep until the instant an empty window refills (the earlier
    /// one when both are empty).
    pub fn decide(&mut self, now: u64) -> (r: Control)
        requires
            old(self)@.wf(),
        ensures
            (final(self)@, r) == old(self)@.decide(now),
            final(self)@.wf(),
    {
        match self.retry_until {
            Some(deadline) => {
                if now < deadline {
                    return Control::Sleep(deadline);
                }
                self.retry_until = None;
                Control::Recheck
            },
            None => {
                self.sec.refresh(now);
                self.hour.refresh(now);
                if self.sec.remaining() > 0 && self.hour.remaining() > 0 {
                    self.sec.take();
                    self.hour.take();
                    Control::Permit
                } else {
                    let sec_reset = self.sec.reset_at();
                    let hour_reset = self.hour.reset_at();
                    let wake = if self.sec.remaining() == 0 && self.hour.remaining() == 0 {
                        if sec_reset <= hour_reset {
                            sec_reset
                        } else {
                            hour_reset
                        }
                    } else if self.sec.remaining() == 0 {
                        sec_reset
                    } else {
                        hour_reset
                    };
                    Control::Sleep(wake)
                }
            },
        }
    }

    /// Folds response metadata observed at `now` into the limiter: a present
    /// remaining count overwrites that window's count (clamped to its limit),
    /// a present retry directive sets the deadline to `now` plus that many
    /// seconds, and absent values change nothing.
    pub fn sync_from_metadata(
        &mut self,
        sec_remaining: Option<u64>,
        hour_remaining: Option<u64>,
        retry_after_secs: Option<u64>,
        now: u64,
    )
        requires
            old(self)@.wf(),
        ensures
            final(self)@ == old(self)@.synced(sec_remaining, hour_remaining, retry_after_secs, now),
            final(self)@.wf(),
    {
        if let Some(r) = sec_remaining {
            self.sec.correct(r);
        }
        if let Some(r) = hour_remaining {
            self.hour.correct(r);
        }
        if let Some(s) = retry_after_secs {
            self.retry_until = Some(now.saturating_add(saturating_mul(s, MS_PER_SECOND)));
        }
    }
}

} // verus!
