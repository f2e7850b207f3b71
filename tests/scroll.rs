use libft_api::{
    FtClientError, HeaderFields, HeaderMetaData, RateLimiter, Scroll, WorkerStatus, WorkerStep,
    RATE_LIMIT_BACKOFF_MS,
};

/// Drives every worker of `scroll` round-robin against `backend` until all
/// have stopped; returns the pages requested, in order.
fn drive<F>(scroll: &mut Scroll<u64>, meta: &mut HeaderMetaData, mut backend: F) -> Vec<usize>
where
    F: FnMut(usize) -> (Result<Vec<u64>, FtClientError>, HeaderFields),
{
    let mut requested = Vec::new();
    let mut rounds = 0;
    while !scroll.is_finished() {
        rounds += 1;
        assert!(rounds < 1000, "scroll does not terminate");
        for w in 0..scroll.concurrency() {
            if let Some(page) = scroll.next_request(w, meta.total_page) {
                requested.push(page);
                let (outcome, headers) = backend(page);
                meta.update_from_headers(&headers, 0);
                let _ = scroll.record(w, outcome);
            }
        }
    }
    requested
}

fn page_items(page: usize) -> Vec<u64> {
    (0..3).map(|j| page as u64 * 100 + j).collect()
}

fn no_headers() -> HeaderFields {
    HeaderFields::new()
}

fn meta() -> HeaderMetaData {
    HeaderMetaData::new(RateLimiter::new(2, 1200, 0))
}

#[test]
fn four_workers_collect_pages_one_to_ten_once() {
    let mut scroll: Scroll<u64> = Scroll::new(4, 1);
    let mut meta = meta();
    let requested = drive(&mut scroll, &mut meta, |page| {
        let items = if page <= 10 { page_items(page) } else { Vec::new() };
        (Ok(items), no_headers())
    });
    assert!(scroll.is_finished());
    for w in 0..4 {
        assert_eq!(scroll.cursor(w).status, WorkerStatus::EmptyPage);
    }
    let mut sorted_requests = requested.clone();
    sorted_requests.sort();
    sorted_requests.dedup();
    assert_eq!(sorted_requests.len(), requested.len());
    let report = scroll.into_report();
    let mut items = report.items;
    items.sort();
    let expected: Vec<u64> = (1..=10).flat_map(page_items).collect();
    assert_eq!(items, expected);
    assert!(report.failures.is_empty());
}

#[test]
fn worker_pages_follow_their_stride() {
    let mut scroll: Scroll<u64> = Scroll::new(3, 5);
    assert_eq!(scroll.next_request(0, None), Some(5));
    assert_eq!(scroll.next_request(1, None), Some(6));
    assert_eq!(scroll.next_request(2, None), Some(7));
    assert_eq!(scroll.record(1, Ok(vec![1])), WorkerStep::Continue);
    assert_eq!(scroll.next_request(1, None), Some(9));
    assert_eq!(scroll.record(1, Ok(vec![2])), WorkerStep::Continue);
    assert_eq!(scroll.next_request(1, None), Some(12));
}

#[test]
fn worker_past_known_total_stops_without_fetching() {
    let mut scroll: Scroll<u64> = Scroll::new(2, 1);
    let mut meta = meta();
    let requested = drive(&mut scroll, &mut meta, |page| {
        let mut h = HeaderFields::new();
        h.push("x-total".to_string(), Some("5".to_string()));
        (Ok(page_items(page)), h)
    });
    assert_eq!(meta.total_page, Some(5));
    assert!(requested.iter().all(|p| *p <= 5));
    let mut sorted = requested.clone();
    sorted.sort();
    assert_eq!(sorted, vec![1, 2, 3, 4, 5]);
    assert_eq!(scroll.cursor(0).status, WorkerStatus::Exhausted);
    assert_eq!(scroll.cursor(1).status, WorkerStatus::Exhausted);
    assert_eq!(scroll.cursor(1).page, 6);
}

#[test]
fn next_request_beyond_total_marks_exhausted() {
    let mut scroll: Scroll<u64> = Scroll::new(1, 4);
    assert_eq!(scroll.next_request(0, Some(3)), None);
    assert_eq!(scroll.cursor(0).status, WorkerStatus::Exhausted);
    assert_eq!(scroll.next_request(0, None), None);
}

#[test]
fn rate_limited_page_is_retried_not_skipped() {
    let mut scroll: Scroll<u64> = Scroll::new(2, 1);
    let mut meta = meta();
    let mut refusals = 2;
    let requested = drive(&mut scroll, &mut meta, |page| {
        if page == 3 && refusals > 0 {
            refusals -= 1;
            return (Err(FtClientError::RateLimitError("429".to_string())), no_headers());
        }
        let items = if page <= 6 { page_items(page) } else { Vec::new() };
        (Ok(items), no_headers())
    });
    assert_eq!(requested.iter().filter(|p| **p == 3).count(), 3);
    let odd: Vec<usize> = requested.iter().copied().filter(|p| p % 2 == 1).collect();
    assert_eq!(odd, vec![1, 3, 3, 3, 5, 7]);
    let mut items = scroll.into_report().items;
    items.sort();
    let expected: Vec<u64> = (1..=6).flat_map(page_items).collect();
    assert_eq!(items, expected);
}

#[test]
fn rate_limit_keeps_cursor_and_asks_for_backoff() {
    let mut scroll: Scroll<u64> = Scroll::new(1, 1);
    assert_eq!(scroll.next_request(0, None), Some(1));
    let step = scroll.record(0, Err(FtClientError::RateLimitError(String::new())));
    assert_eq!(step, WorkerStep::Retry(RATE_LIMIT_BACKOFF_MS));
    assert_eq!(RATE_LIMIT_BACKOFF_MS, 1000);
    assert_eq!(scroll.next_request(0, None), Some(1));
}

#[test]
fn other_error_stops_only_that_worker() {
    let mut scroll: Scroll<u64> = Scroll::new(3, 1);
    let mut meta = meta();
    drive(&mut scroll, &mut meta, |page| {
        if page == 5 {
            return (Err(FtClientError::Other("boom".to_string())), no_headers());
        }
        let items = if page <= 9 { page_items(page) } else { Vec::new() };
        (Ok(items), no_headers())
    });
    assert_eq!(scroll.cursor(1).status, WorkerStatus::Failed);
    assert_eq!(scroll.cursor(0).status, WorkerStatus::EmptyPage);
    assert_eq!(scroll.cursor(2).status, WorkerStatus::EmptyPage);
    let report = scroll.into_report();
    assert_eq!(report.failures.len(), 1);
    assert_eq!(report.failures[0].page, 5);
    assert!(matches!(&report.failures[0].error, FtClientError::Other(m) if m == "boom"));
    let mut items = report.items;
    items.sort();
    let expected: Vec<u64> = [1, 2, 3, 4, 6, 7, 9].iter().flat_map(|p| page_items(*p)).collect();
    assert_eq!(items, expected);
}

#[test]
fn empty_page_stops_worker() {
    let mut scroll: Scroll<u64> = Scroll::new(1, 1);
    assert_eq!(scroll.record(0, Ok(Vec::new())), WorkerStep::StopEmpty);
    assert!(scroll.is_finished());
    assert_eq!(scroll.next_request(0, None), None);
}

#[test]
fn last_representable_page_exhausts_worker() {
    let mut scroll: Scroll<u64> = Scroll::new(2, usize::MAX - 1);
    assert_eq!(scroll.record(1, Ok(vec![7])), WorkerStep::Continue);
    assert_eq!(scroll.cursor(1).status, WorkerStatus::Exhausted);
    assert_eq!(scroll.cursor(1).page, usize::MAX);
}
