use vstd::prelude::*;

use vstd::arithmetic::div_mod::{
    lemma_fundamental_div_mod, lemma_fundamental_div_mod_converse, lemma_mod_pos_bound,
};

use crate::error::FtClientError;

verus! {

/// Pause (ms) before a worker retries a page the server refused for rate.
pub const RATE_LIMIT_BACKOFF_MS: u64 = 1000;

/// Whether a worker still fetches, and if not, why it stopped.
#[derive(Clone, Copy, Debug, PartialEq, Eq, Structural)]
pub enum WorkerStatus {
    Active,
    /// Its next page lies past the known total, or past the largest page number.
    Exhausted,
    /// The server answered with an empty page: the collection ends there.
    EmptyPage,
    /// A request failed for a reason other than the rate limit.
    Failed,
}

/// A worker's next page and status.
#[derive(Clone, Copy, Debug, PartialEq, Eq, Structural)]
pub struct WorkerCursor {
    pub page: usize,
    pub status: WorkerStatus,
}

/// What a worker does after the outcome of a fetch is recorded.
#[derive(Clone, Copy, Debug, PartialEq, Eq, Structural)]
pub enum WorkerStep {
    /// Go on with the next assigned page.
    Continue,
    /// Sleep this many milliseconds, then fetch the same page again.
    Retry(u64),
    /// Stop: the page was empty.
    StopEmpty,
    /// Stop: the fetch failed.
    StopError,
}

/// A page whose fetch failed, with the failure.
#[derive(Debug)]
pub struct PageFailure {
    pub page: usize,
    pub error: FtClientError,
}

/// What a finished scroll hands back: every collected item and every failed page.
#[derive(Debug)]
pub struct ScrollReport<T> {
    pub items: Vec<T>,
    pub failures: Vec<PageFailure>,
}

/// The `round`-th page of worker `worker` (both from zero) when `n` workers
/// stride from `start`.
pub open spec fn stride_page(start: int, n: int, worker: int, round: int) -> int {
    start + worker + round * n
}

/// The worker to which `page` is assigned.
pub open spec fn page_owner(start: int, n: int, page: int) -> int {
    (page - start) % n
}

/// How many pages its worker fetches before `page`.
pub open spec fn page_round(start: int, n: int, page: int) -> int {
    (page - start) / n
}

/// Whether `page` lies past the known total.
pub open spec fn beyond_total(page: usize, total: Option<u64>) -> bool {
    match total {
        Some(t) => page as int > t as int,
        None => false,
    }
}

/// The cursor after its page was collected: the next page of its stride, or
/// exhausted when that page number does not fit.
pub open spec fn advanced(c: WorkerCursor, n: usize) -> WorkerCursor {
    if c.page + n <= usize::MAX {
        WorkerCursor { page: (c.page + n) as usize, status: WorkerStatus::Active }
    } else {
        WorkerCursor { page: c.page, status: WorkerStatus::Exhausted }
    }
}

/// Mathematical state of a scroll.
pub struct ScrollView<T> {
    pub concurrency: usize,
    pub start_page: usize,
    pub cursors: Seq<WorkerCursor>,
    pub items: Seq<T>,
    pub failures: Seq<PageFailure>,
    /// The pages whose items were collected.
    pub fetched: Set<int>,
}

impl<T> ScrollView<T> {
    pub open spec fn wf(self) -> bool {
        let n = self.concurrency as int;
        let s = self.start_page as int;
        &&& n >= 1
        &&& self.cursors.len() == n
        &&& forall|w: int|
            0 <= w < n ==> {
                &&& #[trigger] self.cursors[w].page >= s + w
                &&& page_owner(s, n, self.cursors[w].page as int) == w
            }
        &&& forall|p: int|
            #[trigger] self.fetched.contains(p) ==> {
                let c = self.cursors[page_owner(s, n, p)];
                &&& p >= s
                &&& page_round(s, n, p) <= page_round(s, n, c.page as int)
                &&& page_round(s, n, p) == page_round(s, n, c.page as int) ==> c.status
                    != WorkerStatus::Active
            }
    }
}

/// The bookkeeping of one strided scroll over a paginated collection: `n`
/// workers, worker `w` (from zero) fetching pages `start + w`, `start + w + n`,
/// `start + w + 2n`, ..., each stopping on an empty page, on a failure, or
/// past the known total.
pub struct Scroll<T> {
    concurrency: usize,
    start_page: usize,
    cursors: Vec<WorkerCursor>,
    items: Vec<T>,
    failures: Vec<PageFailure>,
    fetched: Ghost<Set<int>>,
}

impl<T> View for Scroll<T> {
    type V = ScrollView<T>;

    closed spec fn view(&self) -> ScrollView<T> {
        ScrollView {
            concurrency: self.concurrency,
            start_page: self.start_page,
            cursors: self.cursors@,
            items: self.items@,
            failures: self.failures@,
            fetched: self.fetched@,
        }
    }
}

/// The worker and round of a page written as `start + w + q * n` with `w < n`.
proof fn lemma_stride_position(start: int, n: int, w: int, q: int)
    requires
        n >= 1,
        0 <= w < n,
    ensures
        page_owner(start, n, stride_page(start, n, w, q)) == w,
        page_round(start, n, stride_page(start, n, w, q)) == q,
{
    lemma_fundamental_div_mod_converse(q * n + w, n, q, w);
}

/// The next page of a stride has the same worker and the following round.
proof fn lemma_next_stride(start: int, n: int, p: int)
    requires
        n >= 1,
        p >= start,
    ensures
        page_owner(start, n, p + n) == page_owner(start, n, p),
        page_round(start, n, p + n) == page_round(start, n, p) + 1,
{
    let x = p - start;
    lemma_fundamental_div_mod(x, n);
    lemma_mod_pos_bound(x, n);
    let q = x / n;
    let r = x % n;
    assert(x + n == (q + 1) * n + r) by (nonlinear_arith)
        requires
            x == n * q + r,
    ;
    lemma_fundamental_div_mod_converse(x + n, n, q + 1, r);
}

/// Pages assigned to workers never coincide: a page belongs to exactly one
/// worker, at exactly one round of its stride.
pub proof fn lemma_strides_disjoint(start: int, n: int, w1: int, k1: int, w2: int, k2: int)
    requires
        n >= 1,
        0 <= w1 < n,
        0 <= w2 < n,
        stride_page(start, n, w1, k1) == stride_page(start, n, w2, k2),
    ensures
        w1 == w2,
        k1 == k2,
{
    lemma_stride_position(start, n, w1, k1);
    lemma_stride_position(start, n, w2, k2);
}

impl<T> Scroll<T> {
    /// A scroll of `concurrency` workers from `start_page`, nothing fetched yet.
    pub fn new(concurrency: usize, start_page: usize) -> (r: Scroll<T>)
        requires
            concurrency >= 1,
            start_page + concurrency - 1 <= usize::MAX,
        ensures
            r@.wf(),
            r@.concurrency == concurrency,
            r@.start_page == start_page,
            r@.cursors.len() == concurrency,
            forall|w: int|
                0 <= w < concurrency ==> #[trigger] r@.cursors[w] == (WorkerCursor {
                    page: (start_page + w) as usize,
                    status: WorkerStatus::Active,
                }),
            r@.items.len() == 0,
            r@.failures.len() == 0,
            r@.fetched.is_empty(),
    {
        let mut cursors: Vec<WorkerCursor> = Vec::new();
        let mut w: usize = 0;
        while w < concurrency
            invariant
                w <= concurrency,
                start_page + concurrency - 1 <= usize::MAX,
                cursors@.len() == w,
                forall|v: int|
                    0 <= v < w ==> #[trigger] cursors@[v] == (WorkerCursor {
                        page: (start_page + v) as usize,
                        status: WorkerStatus::Active,
                    }),
            decreases concurrency - w,
        {
            cursors.push(WorkerCursor { page: start_page + w, status: WorkerStatus::Active });
            w = w + 1;
        }
        let r = Scroll {
            concurrency,
            start_page,
            cursors,
            items: Vec::new(),
            failures: Vec::new(),
            fetched: Ghost(Set::empty()),
        };
        assert forall|v: int| 0 <= v < concurrency implies page_owner(
            start_page as int,
            concurrency as int,
            #[trigger] r@.cursors[v].page as int,
        ) == v by {
            lemma_stride_position(start_page as int, concurrency as int, v, 0);
        }
        r
    }

    pub fn concurrency(&self) -> (r: usize)
        ensures
            r == self@.concurrency,
    {
        self.concurrency
    }

    pub fn start_page(&self) -> (r: usize)
        ensures
            r == self@.start_page,
    {
        self.start_page
    }

    pub fn cursor(&self, worker: usize) -> (r: WorkerCursor)
        requires
            worker < self@.cursors.len(),
        ensures
            r == self@.cursors[worker as int],
    {
        self.cursors[worker]
    }

    /// The page `worker` should fetch next, or `None` when it has stopped. A
    /// worker whose page lies past `total` stops here, without fetching it.
    pub fn next_request(&mut self, worker: usize, total: Option<u64>) -> (r: Option<usize>)
        requires
            old(self)@.wf(),
            worker < old(self)@.concurrency,
        ensures
            final(self)@.wf(),
            ({
                let c = old(self)@.cursors[worker as int];
                if c.status != WorkerStatus::Active {
                    r == None::<usize> && final(self)@ == old(self)@
                } else if beyond_total(c.page, total) {
                    &&& r == None::<usize>
                    &&& final(self)@ == ScrollView {
                        cursors: old(self)@.cursors.update(
                            worker as int,
                            WorkerCursor { page: c.page, status: WorkerStatus::Exhausted },
                        ),
                        ..old(self)@
                    }
                } else {
                    r == Some(c.page) && final(self)@ == old(self)@
                }
            }),
    {
        let c = self.cursors[worker];
        if c.status != WorkerStatus::Active {
            return None;
        }
        let beyond = match total {
            Some(t) => c.page as u64 > t,
            None => false,
        };
        if beyond {
            self.cursors.set(worker, WorkerCursor { page: c.page, status: WorkerStatus::Exhausted });
            None
        } else {
            Some(c.page)
        }
    }

    /// Records the outcome of fetching the current page of `worker`.
    /// A non-empty page is collected and the worker moves on by one stride; an
    /// empty page stops the worker; a rate-limit refusal changes nothing and
    /// asks for a retry of the same page after a pause; any other failure
    /// stops the worker and is recorded with its page.
    pub fn record(&mut self, worker: usize, outcome: Result<Vec<T>, FtClientError>) -> (r: WorkerStep)
        requires
            old(self)@.wf(),
            worker < old(self)@.concurrency,
            old(self)@.cursors[worker as int].status == WorkerStatus::Active,
        ensures
            final(self)@.wf(),
            final(self)@.concurrency == old(self)@.concurrency,
            final(self)@.start_page == old(self)@.start_page,
            ({
                let c = old(self)@.cursors[worker as int];
                match outcome {
                    Ok(page_items) => if page_items@.len() == 0 {
                        &&& r == WorkerStep::StopEmpty
                        &&& final(self)@ == ScrollView {
                            cursors: old(self)@.cursors.update(
                                worker as int,
                                WorkerCursor { page: c.page, status: WorkerStatus::EmptyPage },
                            ),
                            ..old(self)@
                        }
                    } else {
                        &&& r == WorkerStep::Continue
                        &&& !old(self)@.fetched.contains(c.page as int)
                        &&& final(self)@ == ScrollView {
                            cursors: old(self)@.cursors.update(
                                worker as int,
                                advanced(c, old(self)@.concurrency),
                            ),
                            items: old(self)@.items + page_items@,
                            fetched: old(self)@.fetched.insert(c.page as int),
                            ..old(self)@
                        }
                    },
                    Err(e) => if e is RateLimitError {
                        r == WorkerStep::Retry(RATE_LIMIT_BACKOFF_MS) && final(self)@ == old(self)@
                    } else {
                        &&& r == WorkerStep::StopError
                        &&& final(self)@ == ScrollView {
                            cursors: old(self)@.cursors.update(
                                worker as int,
                                WorkerCursor { page: c.page, status: WorkerStatus::Failed },
                            ),
                            failures: old(self)@.failures.push(PageFailure { page: c.page, error: e }),
                            ..old(self)@
                        }
                    },
                }
            }),
    {
        let c = self.cursors[worker];
        let ghost s = self.start_page as int;
        let ghost n = self.concurrency as int;
        match outcome {
            Ok(mut page_items) => {
                if page_items.len() == 0 {
                    self.cursors.set(worker, WorkerCursor { page: c.page, status: WorkerStatus::EmptyPage });
                    WorkerStep::StopEmpty
                } else {
                    assert(page_owner(s, n, c.page as int) == worker);
                    assert(!self.fetched@.contains(c.page as int));
                    self.items.append(&mut page_items);
                    let next = match c.page.checked_add(self.concurrency) {
                        Some(p) => WorkerCursor { page: p, status: WorkerStatus::Active },
                        None => WorkerCursor { page: c.page, status: WorkerStatus::Exhausted },
                    };
                    proof {
                        lemma_next_stride(s, n, c.page as int);
                    }
                    self.cursors.set(worker, next);
                    self.fetched = Ghost(self.fetched@.insert(c.page as int));
                    WorkerStep::Continue
                }
            },
            Err(e) => {
                if e.is_rate_limited() {
                    WorkerStep::Retry(RATE_LIMIT_BACKOFF_MS)
                } else {
                    self.cursors.set(worker, WorkerCursor { page: c.page, status: WorkerStatus::Failed });
                    self.failures.push(PageFailure { page: c.page, error: e });
                    WorkerStep::StopError
                }
            },
        }
    }

    /// Whether every worker has stopped.
    pub fn is_finished(&self) -> (r: bool)
        ensures
            r == forall|w: int|
                0 <= w < self@.cursors.len() ==> #[trigger] self@.cursors[w].status
                    != WorkerStatus::Active,
    {
        let mut w: usize = 0;
        while w < self.cursors.len()
            invariant
                w <= self@.cursors.len(),
                forall|v: int| 0 <= v < w ==> #[trigger] self@.cursors[v].status != WorkerStatus::Active,
            decreases self@.cursors.len() - w,
        {
            if self.cursors[w].status == WorkerStatus::Active {
                return false;
            }
            w = w + 1;
        }
        true
    }

    /// The collected items, in the order they were recorded, and the failed pages.
    pub fn into_report(self) -> (r: ScrollReport<T>)
        ensures
            r.items@ == self@.items,
            r.failures@ == self@.failures,
    {
        ScrollReport { items: self.items, failures: self.failures }
    }
}

} // verus!
