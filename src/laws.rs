use vstd::prelude::*;

use crate::limiter::{sat_mul, Control, LimiterModel, MS_PER_SECOND};
use crate::quota::{sat_add, WindowModel};

verus! {

/// The short window of `m` (`hourly == false`) or its long one.
pub open spec fn window(m: LimiterModel, hourly: bool) -> WindowModel {
    if hourly {
        m.hour
    } else {
        m.sec
    }
}

/// How many permits a sequence of `acquire` decisions at the instants
/// `times`, taken one after the other from `m`, grants.
pub open spec fn permits(m: LimiterModel, times: Seq<u64>) -> nat
    decreases times.len(),
{
    if times.len() == 0 {
        0
    } else {
        let (next, c) = m.decide(times[0]);
        (if c == Control::Permit {
            1nat
        } else {
            0nat
        }) + permits(next, times.subrange(1, times.len() as int))
    }
}

/// Before a window's reset instant, decisions grant at most as many permits as
/// the window has left, and so at most its limit.
pub proof fn lemma_permits_before_reset(m: LimiterModel, times: Seq<u64>, hourly: bool)
    requires
        m.wf(),
        forall|i: int| 0 <= i < times.len() ==> #[trigger] times[i] < window(m, hourly).reset_at,
    ensures
        permits(m, times) <= window(m, hourly).remaining,
        permits(m, times) <= window(m, hourly).limit,
    decreases times.len(),
{
    if times.len() > 0 {
        let (next, c) = m.decide(times[0]);
        let rest = times.subrange(1, times.len() as int);
        assert(times[0] < window(m, hourly).reset_at);
        assert(window(next, hourly).reset_at == window(m, hourly).reset_at);
        assert forall|i: int| 0 <= i < rest.len() implies #[trigger] rest[i] < window(
            next,
            hourly,
        ).reset_at by {
            assert(rest[i] == times[i + 1]);
        }
        lemma_permits_before_reset(next, rest, hourly);
    }
}

/// From a window's reset instant on, decisions at instants within one window
/// length of a common start grant at most the window's limit.
pub proof fn lemma_permits_after_reset(m: LimiterModel, times: Seq<u64>, start: u64, hourly: bool)
    requires
        m.wf(),
        start >= window(m, hourly).reset_at,
        forall|i: int|
            0 <= i < times.len() ==> start <= #[trigger] times[i] && times[i] < sat_add(
                start,
                window(m, hourly).duration,
            ),
    ensures
        permits(m, times) <= window(m, hourly).limit,
    decreases times.len(),
{
    if times.len() > 0 {
        let t = times[0];
        let (next, c) = m.decide(t);
        let rest = times.subrange(1, times.len() as int);
        assert(start <= t);
        assert(forall|i: int| 0 <= i < rest.len() ==> #[trigger] rest[i] == times[i + 1]);
        match m.retry_until {
            Some(d) => {
                assert(window(next, hourly) == window(m, hourly));
                lemma_permits_after_reset(next, rest, start, hourly);
            },
            None => {
                assert(window(next, hourly).reset_at == sat_add(t, window(m, hourly).duration));
                assert(window(next, hourly).limit == window(m, hourly).limit);
                if c == Control::Permit {
                    assert(window(next, hourly).remaining == window(m, hourly).limit - 1);
                } else {
                    assert(window(next, hourly).remaining <= window(m, hourly).limit);
                }
                lemma_permits_before_reset(next, rest, hourly);
            },
        }
    }
}

/// After a retry directive of `secs` seconds is folded in at `t`, no decision
/// before `t + secs` grants a permit, however much quota is left; each one
/// says to sleep until that instant.
pub proof fn lemma_retry_after_blocks(m: LimiterModel, t: u64, secs: u64, times: Seq<u64>)
    requires
        m.wf(),
        forall|i: int|
            0 <= i < times.len() ==> #[trigger] times[i] < sat_add(t, sat_mul(secs, MS_PER_SECOND)),
    ensures
        permits(m.synced(None, None, Some(secs), t), times) == 0,
        forall|i: int|
            0 <= i < times.len() ==> (#[trigger] m.synced(None, None, Some(secs), t).decide(
                times[i],
            )).1 == Control::Sleep(sat_add(t, sat_mul(secs, MS_PER_SECOND))),
    decreases times.len(),
{
    let s = m.synced(None, None, Some(secs), t);
    if times.len() > 0 {
        let rest = times.subrange(1, times.len() as int);
        assert(s.decide(times[0]).0 == s);
        assert forall|i: int| 0 <= i < rest.len() implies #[trigger] rest[i] < sat_add(
            t,
            sat_mul(secs, MS_PER_SECOND),
        ) by {
            assert(rest[i] == times[i + 1]);
        }
        lemma_retry_after_blocks(m, t, secs, rest);
    }
}

/// After the server reports no permits left in the short window, no decision
/// before that window's reset instant grants a permit, even if none was taken
/// locally.
pub proof fn lemma_zero_remaining_blocks(m: LimiterModel, t: u64, times: Seq<u64>)
    requires
        m.wf(),
        forall|i: int| 0 <= i < times.len() ==> #[trigger] times[i] < m.sec.reset_at,
    ensures
        permits(m.synced(Some(0), None, None, t), times) == 0,
{
    let s = m.synced(Some(0), None, None, t);
    assert(s.sec.remaining == 0);
    lemma_permits_before_reset(s, times, false);
}

/// Where `acquire` stands after acting on `c` at `now`: a sleep moves the
/// clock to its deadline (never backwards); anything else keeps it.
pub open spec fn after_control(now: u64, c: Control) -> u64 {
    match c {
        Control::Sleep(t) => if t > now {
            t
        } else {
            now
        },
        _ => now,
    }
}

/// The state and instant at which `acquire`, started from `m` at `now` and
/// taking at most `steps` decisions, obtains its permit; `None` if it has not
/// by then.
pub open spec fn acquire_outcome(m: LimiterModel, now: u64, steps: nat) -> Option<(LimiterModel, u64)>
    decreases steps,
{
    if steps == 0 {
        None
    } else {
        let (next, c) = m.decide(now);
        if c == Control::Permit {
            Some((next, now))
        } else {
            acquire_outcome(next, after_control(now, c), (steps - 1) as nat)
        }
    }
}

proof fn lemma_refreshed_wf(w: WindowModel, now: u64)
    requires
        w.wf(),
    ensures
        w.refreshed(now).wf(),
        w.refreshed(now).limit == w.limit,
        w.refreshed(now).remaining >= w.remaining,
        now >= w.reset_at ==> w.refreshed(now).remaining >= 1,
        w.refreshed(now).remaining == 0 ==> now < w.refreshed(now).reset_at,
{
}

/// With no retry directive pending, a permit comes within three decisions.
proof fn lemma_windows_grant(m: LimiterModel, now: u64)
    requires
        m.wf(),
        m.retry_until is None,
    ensures
        acquire_outcome(m, now, 3) is Some,
{
    lemma_refreshed_wf(m.sec, now);
    lemma_refreshed_wf(m.hour, now);
    let (m1, c1) = m.decide(now);
    if c1 != Control::Permit {
        let t1 = after_control(now, c1);
        assert(m1.retry_until is None);
        lemma_refreshed_wf(m1.sec, t1);
        lemma_refreshed_wf(m1.hour, t1);
        let (m2, c2) = m1.decide(t1);
        assert(acquire_outcome(m, now, 3) == acquire_outcome(m1, t1, 2));
        if c2 != Control::Permit {
            let t2 = after_control(t1, c2);
            lemma_refreshed_wf(m2.sec, t2);
            lemma_refreshed_wf(m2.hour, t2);
            assert(acquire_outcome(m1, t1, 2) == acquire_outcome(m2, t2, 1));
            assert(m2.decide(t2).1 == Control::Permit);
        }
    }
}

/// `acquire` never waits forever: from any state, sleeping until each instant
/// the limiter names and asking again obtains a permit within five decisions.
pub proof fn lemma_acquire_returns(m: LimiterModel, now: u64)
    requires
        m.wf(),
    ensures
        acquire_outcome(m, now, 5) is Some,
{
    match m.retry_until {
        None => {
            lemma_windows_grant(m, now);
            lemma_outcome_more_steps(m, now, 3, 5);
        },
        Some(d) => {
            if now < d {
                let (m1, c1) = m.decide(now);
                assert(acquire_outcome(m, now, 5) == acquire_outcome(m1, d, 4));
                let (m2, c2) = m1.decide(d);
                assert(c2 == Control::Recheck);
                assert(acquire_outcome(m1, d, 4) == acquire_outcome(m2, d, 3));
                lemma_windows_grant(m2, d);
            } else {
                let (m1, c1) = m.decide(now);
                assert(acquire_outcome(m, now, 5) == acquire_outcome(m1, now, 4));
                lemma_windows_grant(m1, now);
                lemma_outcome_more_steps(m1, now, 3, 4);
            }
        },
    }
}

proof fn lemma_outcome_more_steps(m: LimiterModel, now: u64, k: nat, j: nat)
    requires
        k <= j,
        acquire_outcome(m, now, k) is Some,
    ensures
        acquire_outcome(m, now, j) == acquire_outcome(m, now, k),
    decreases k,
{
    let (next, c) = m.decide(now);
    if c != Control::Permit {
        lemma_outcome_more_steps(next, after_control(now, c), (k - 1) as nat, (j - 1) as nat);
    }
}

} // verus!
