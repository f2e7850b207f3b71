use libft_api::{Control, HeaderFields, HeaderMetaData, RateLimiter};

/// Runs `acquire` on a simulated clock from `now`: sleeps jump the clock
/// forward. Returns the instant at which the permit was granted.
fn acquire_at(limiter: &mut RateLimiter, mut now: u64) -> u64 {
    loop {
        match limiter.decide(now) {
            Control::Permit => return now,
            Control::Sleep(until) => now = until.max(now),
            Control::Recheck => {}
        }
    }
}

fn headers(pairs: &[(&str, &str)]) -> HeaderFields {
    let mut h = HeaderFields::new();
    for (name, value) in pairs {
        h.push(name.to_string(), Some(value.to_string()));
    }
    h
}

#[test]
fn test_can_acquire_within_limit() {
    let mut limiter = RateLimiter::with_windows(5, 100, 1000, 3_600_000, 0);
    for _ in 0..5 {
        assert_eq!(acquire_at(&mut limiter, 0), 0);
    }
}

#[test]
fn test_waits_when_per_second_limit_exceeded() {
    let mut limiter = RateLimiter::with_windows(3, 100, 1000, 3_600_000, 0);
    for _ in 0..3 {
        assert_eq!(acquire_at(&mut limiter, 0), 0);
    }
    assert_eq!(limiter.decide(999), Control::Sleep(1000));
    assert_eq!(acquire_at(&mut limiter, 0), 1000);
}

#[test]
fn test_limit_resets_after_short_window() {
    let mut limiter = RateLimiter::with_windows(2, 100, 200, 3_600_000, 0);
    acquire_at(&mut limiter, 0);
    acquire_at(&mut limiter, 0);
    assert_eq!(limiter.decide(199), Control::Sleep(200));
    assert_eq!(acquire_at(&mut limiter, 0), 200);
}

#[test]
fn test_concurrent_acquires_batching() {
    let mut limiter = RateLimiter::with_windows(8, 1000, 1000, 3_600_000, 0);
    // Callers waiting on a shared clock: the earliest wake-up runs first.
    let mut wake: Vec<Option<u64>> = vec![Some(0); 32];
    let mut grants: Vec<u64> = Vec::new();
    while let Some((i, now)) = wake
        .iter()
        .enumerate()
        .filter_map(|(i, w)| w.map(|t| (i, t)))
        .min_by_key(|(_, t)| *t)
    {
        match limiter.decide(now) {
            Control::Permit => {
                grants.push(now);
                wake[i] = None;
            }
            Control::Sleep(until) => wake[i] = Some(until.max(now)),
            Control::Recheck => {}
        }
    }
    assert_eq!(grants.iter().filter(|t| **t == 0).count(), 8);
    for second in 1..4u64 {
        let n = grants.iter().filter(|t| **t <= second * 1000).count();
        assert_eq!(n as u64, 8 * (second + 1));
    }
}

#[test]
fn test_retry_after_delays_acquire() {
    let mut limiter = RateLimiter::with_windows(5, 100, 1000, 3_600_000, 0);
    limiter.update_from_headers(&headers(&[("retry-after", "2")]), 0);
    assert_eq!(limiter.decide(1000), Control::Sleep(2000));
    assert_eq!(acquire_at(&mut limiter, 0), 2000);
}

#[test]
fn test_header_remaining_zero_enforces_wait() {
    let mut limiter = RateLimiter::with_windows(2, 100, 300, 3_600_000, 0);
    limiter.update_from_headers(&headers(&[("x-secondly-ratelimit-remaining", "0")]), 0);
    assert_eq!(limiter.decide(299), Control::Sleep(300));
    assert_eq!(acquire_at(&mut limiter, 0), 300);
}

#[test]
fn test_hourly_window_respected_with_short_window() {
    let mut limiter = RateLimiter::with_windows(100, 3, 50, 2000, 0);
    for _ in 0..3 {
        assert_eq!(acquire_at(&mut limiter, 0), 0);
    }
    assert_eq!(limiter.decide(1000), Control::Sleep(2000));
    assert_eq!(acquire_at(&mut limiter, 1000), 2000);
}

#[test]
fn test_interleaved_retry_after_and_window() {
    let mut limiter = RateLimiter::with_windows(2, 100, 300, 3_600_000, 0);
    assert_eq!(acquire_at(&mut limiter, 0), 0);
    limiter.update_from_headers(&headers(&[("retry-after", "1")]), 0);
    assert_eq!(limiter.decide(300), Control::Sleep(1000));
    assert_eq!(acquire_at(&mut limiter, 300), 1000);
}

#[test]
fn test_header_metadata_updates_total_page() {
    let mut meta = HeaderMetaData::new(RateLimiter::new(5, 100, 0));
    meta.update_from_headers(&headers(&[("x-total", "42")]), 0);
    assert_eq!(meta.total_page, Some(42));
}

#[test]
fn total_page_keeps_the_first_reported_value() {
    let mut meta = HeaderMetaData::new(RateLimiter::new(5, 100, 0));
    meta.update_from_headers(&headers(&[("x-secondly-ratelimit-remaining", "1")]), 0);
    assert_eq!(meta.total_page, None);
    meta.update_from_headers(&headers(&[("x-total", "42")]), 0);
    meta.update_from_headers(&headers(&[("x-total", "7")]), 0);
    assert_eq!(meta.total_page, Some(42));
}

#[test]
fn third_and_fourth_acquire_at_limit_three() {
    let mut limiter = RateLimiter::with_windows(3, 100, 1000, 3_600_000, 0);
    assert_eq!(limiter.decide(0), Control::Permit);
    assert_eq!(limiter.decide(0), Control::Permit);
    assert_eq!(limiter.decide(0), Control::Permit);
    assert_eq!(limiter.decide(0), Control::Sleep(1000));
    assert_eq!(limiter.decide(1000), Control::Permit);
}

#[test]
fn retry_directive_wins_over_fresh_window() {
    let mut limiter = RateLimiter::with_windows(5, 100, 1000, 3_600_000, 0);
    limiter.sync_from_metadata(None, None, Some(2), 0);
    assert_eq!(limiter.retry_until(), Some(2000));
    assert_eq!(limiter.decide(0), Control::Sleep(2000));
    assert_eq!(limiter.decide(1999), Control::Sleep(2000));
    assert_eq!(limiter.decide(2000), Control::Recheck);
    assert_eq!(limiter.retry_until(), None);
    assert_eq!(limiter.decide(2000), Control::Permit);
}

#[test]
fn metadata_without_retry_keeps_the_deadline() {
    let mut limiter = RateLimiter::with_windows(5, 100, 1000, 3_600_000, 0);
    limiter.sync_from_metadata(None, None, Some(3), 10);
    limiter.sync_from_metadata(Some(4), None, None, 20);
    assert_eq!(limiter.retry_until(), Some(3010));
    limiter.sync_from_metadata(None, None, Some(1), 20);
    assert_eq!(limiter.retry_until(), Some(1020));
}

#[test]
fn reported_remaining_is_clamped_to_limit() {
    let mut limiter = RateLimiter::with_windows(5, 100, 1000, 3_600_000, 0);
    limiter.sync_from_metadata(Some(500), Some(40), None, 0);
    assert_eq!(limiter.seconds_window().remaining(), 5);
    assert_eq!(limiter.hours_window().remaining(), 40);
    assert_eq!(limiter.hours_window().limit(), 100);
}

#[test]
fn both_windows_empty_sleeps_until_earlier_reset() {
    let mut limiter = RateLimiter::with_windows(1, 1, 1000, 5000, 0);
    assert_eq!(limiter.decide(0), Control::Permit);
    assert_eq!(limiter.decide(10), Control::Sleep(1000));
    assert_eq!(limiter.decide(1000), Control::Sleep(5000));
    assert_eq!(limiter.decide(5000), Control::Permit);
}

#[test]
fn hour_window_alone_empty_sleeps_until_its_reset() {
    let mut limiter = RateLimiter::with_windows(10, 5, 1000, 3_600_000, 0);
    limiter.sync_from_metadata(None, Some(0), None, 0);
    assert_eq!(limiter.decide(0), Control::Sleep(3_600_000));
}

#[test]
fn new_limiter_uses_one_second_and_one_hour_windows() {
    let limiter = RateLimiter::new(2, 1200, 500);
    assert_eq!(limiter.seconds_window().reset_at(), 1500);
    assert_eq!(limiter.hours_window().reset_at(), 3_600_500);
    assert_eq!(limiter.seconds_window().remaining(), 2);
    assert_eq!(limiter.hours_window().remaining(), 1200);
}

#[test]
fn rate_bound_holds_within_a_window() {
    let mut limiter = RateLimiter::with_windows(4, 1000, 1000, 3_600_000, 0);
    let mut granted_before_reset = 0;
    for t in 0..1000u64 {
        if limiter.decide(t) == Control::Permit {
            granted_before_reset += 1;
        }
    }
    assert_eq!(granted_before_reset, 4);
}

#[test]
fn saturating_deadline_for_huge_retry() {
    let mut limiter = RateLimiter::with_windows(5, 100, 1000, 3_600_000, 0);
    limiter.sync_from_metadata(None, None, Some(u64::MAX), 5);
    assert_eq!(limiter.retry_until(), Some(u64::MAX));
}
