use vstd::prelude::*;

use crate::headers::{HeaderFields, ResponseMetadata};
use crate::limiter::RateLimiter;

verus! {

/// The total-count oracle after a response reporting `total` is seen: the
/// first reported value is kept.
pub open spec fn observed_total(known: Option<u64>, total: Option<u64>) -> Option<u64> {
    match known {
        Some(k) => Some(k),
        None => total,
    }
}

impl RateLimiter {
    /// Folds the rate-limit headers of one response, observed at `now`, into the limiter.
    pub fn update_from_headers(&mut self, headers: &HeaderFields, now: u64)
        requires
            old(self)@.wf(),
        ensures
            final(self)@ == old(self)@.synced(
                ResponseMetadata::of(headers.fields@).quota_seconds_remaining,
                ResponseMetadata::of(headers.fields@).quota_hours_remaining,
                ResponseMetadata::of(headers.fields@).retry_after_seconds,
                now,
            ),
            final(self)@.wf(),
    {
        let m = ResponseMetadata::from_headers(headers);
        self.sync_from_metadata(m.quota_seconds_remaining, m.quota_hours_remaining, m.retry_after_seconds, now);
    }
}

/// The state shared by every request of one client: its rate limiter and the
/// highest page number known to exist (`None` while unknown, which bounds nothing).
#[derive(Clone, Copy, Debug)]
pub struct HeaderMetaData {
    pub ratelimiter: RateLimiter,
    pub total_page: Option<u64>,
}

impl HeaderMetaData {
    pub open spec fn wf(self) -> bool {
        self.ratelimiter@.wf()
    }

    pub fn new(ratelimiter: RateLimiter) -> (r: HeaderMetaData)
        ensures
            r.ratelimiter@ == ratelimiter@,
            r.total_page == None::<u64>,
    {
        HeaderMetaData { ratelimiter, total_page: None }
    }

    /// Records a reported total; only the first one is kept.
    pub fn observe_total(&mut self, total: Option<u64>)
        ensures
            final(self).total_page == observed_total(old(self).total_page, total),
            final(self).ratelimiter@ == old(self).ratelimiter@,
    {
        if self.total_page.is_none() {
            self.total_page = total;
        }
    }

    /// Applies one response's metadata, observed at `now`, to the oracle and the limiter.
    pub fn apply(&mut self, m: &ResponseMetadata, now: u64)
        requires
            old(self).wf(),
        ensures
            final(self).wf(),
            final(self).total_page == observed_total(old(self).total_page, m.total_count),
            final(self).ratelimiter@ == old(self).ratelimiter@.synced(
                m.quota_seconds_remaining,
                m.quota_hours_remaining,
                m.retry_after_seconds,
                now,
            ),
    {
        self.observe_total(m.total_count);
        self.ratelimiter.sync_from_metadata(
            m.quota_seconds_remaining,
            m.quota_hours_remaining,
            m.retry_after_seconds,
            now,
        );
    }

    /// Applies the headers of one response, observed at `now`.
    pub fn update_from_headers(&mut self, headers: &HeaderFields, now: u64)
        requires
            old(self).wf(),
        ensures
            final(self).wf(),
            final(self).total_page == observed_total(
                old(self).total_page,
                ResponseMetadata::of(headers.fields@).total_count,
            ),
            final(self).ratelimiter@ == old(self).ratelimiter@.synced(
                ResponseMetadata::of(headers.fields@).quota_seconds_remaining,
                ResponseMetadata::of(headers.fields@).quota_hours_remaining,
                ResponseMetadata::of(headers.fields@).retry_after_seconds,
                now,
            ),
    {
        let m = ResponseMetadata::from_headers(headers);
        self.apply(&m, now);
    }
}

} // verus!
