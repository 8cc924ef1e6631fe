//! Crash-loop detection with a sliding window and exponential backoff.

use vstd::prelude::*;

verus! {

/// Length of the sliding window of crash timestamps, in milliseconds.
pub const CRASH_WINDOW_MS: u64 = 60000;

/// Longest restart delay, in milliseconds.
pub const MAX_BACKOFF_MS: u64 = 60000;

/// Default number of crashes in the window at which the server is given up.
pub const DEFAULT_CRASH_LIMIT: usize = 5;

/// What to do after a crash.
#[derive(Debug, Clone, Copy, PartialEq, Eq, Structural)]
pub enum CrashDecision {
    /// Restart after this many milliseconds.
    Restart { delay_ms: u64 },
    /// Too many crashes in the window: the server is marked failed.
    Failed,
}

/// Two to the power `k`.
pub open spec fn two_pow(k: nat) -> nat
    decreases k,
{
    if k == 0 {
        1
    } else {
        2 * two_pow((k - 1) as nat)
    }
}

/// The delay before the restart that follows `k` earlier crashes in the
/// window: two to the `k` seconds, at most sixty.
pub open spec fn backoff_ms(k: nat) -> nat {
    if two_pow(k) * 1000 <= 60000 {
        two_pow(k) * 1000
    } else {
        60000
    }
}

/// Whether a crash at `t` lies in the window that ends at `now`.
pub open spec fn in_window(t: u64, now: u64) -> bool {
    t + 60000 > now
}

/// The timestamps of `ts` that lie in the window ending at `now`, in order.
pub open spec fn recent(ts: Seq<u64>, now: u64) -> Seq<u64>
    decreases ts.len(),
{
    if ts.len() == 0 {
        Seq::empty()
    } else if in_window(ts.last(), now) {
        recent(ts.drop_last(), now).push(ts.last())
    } else {
        recent(ts.drop_last(), now)
    }
}

proof fn lemma_two_pow_grows(k: nat)
    requires
        k >= 6,
    ensures
        two_pow(k) >= 64,
    decreases k,
{
    reveal_with_fuel(two_pow, 8);
    if k > 6 {
        lemma_two_pow_grows((k - 1) as nat);
    }
}

/// The restart delay after `k` earlier crashes in the window.
pub fn backoff(k: usize) -> (d: u64)
    ensures
        d == backoff_ms(k as nat),
        1000 <= d <= MAX_BACKOFF_MS,
{
    proof {
        reveal_with_fuel(two_pow, 8);
        if k >= 6 {
            lemma_two_pow_grows(k as nat);
        }
    }
    match k {
        0 => 1000,
        1 => 2000,
        2 => 4000,
        3 => 8000,
        4 => 16000,
        5 => 32000,
        _ => 60000,
    }
}

/// Tracks the crashes of one server.
pub struct CrashHandler {
    crashes: Vec<u64>,
    limit: usize,
}

impl CrashHandler {
    /// The recorded crash timestamps, oldest first.
    pub closed spec fn timestamps(&self) -> Seq<u64> {
        self.crashes@
    }

    /// The number of crashes in the window at which the server is given up.
    pub closed spec fn limit(&self) -> nat {
        self.limit as nat
    }

    /// A handler with no recorded crash.
    pub fn new(limit: usize) -> (h: Self)
        ensures
            h.timestamps().len() == 0,
            h.limit() == limit,
    {
        CrashHandler { crashes: Vec::new(), limit }
    }

    /// A handler with the default limit of five crashes per window.
    pub fn with_default_limit() -> (h: Self)
        ensures
            h.timestamps().len() == 0,
            h.limit() == 5,
    {
        CrashHandler::new(DEFAULT_CRASH_LIMIT)
    }

    /// Records a crash at `now` and decides what follows. Crashes that left the
    /// window are forgotten. With fewer than `limit` earlier crashes left in
    /// the window the crash is recorded and a restart is scheduled after the
    /// backoff for that count; otherwise the server has failed and nothing
    /// more is recorded.
    pub fn on_crash(&mut self, now: u64) -> (d: CrashDecision)
        ensures
            final(self).limit() == old(self).limit(),
            recent(old(self).timestamps(), now).len() < old(self).limit() ==> d == (
            CrashDecision::Restart {
                delay_ms: backoff_ms(recent(old(self).timestamps(), now).len()) as u64,
            }) && final(self).timestamps() == recent(old(self).timestamps(), now).push(now),
            recent(old(self).timestamps(), now).len() >= old(self).limit() ==> d
                == CrashDecision::Failed && final(self).timestamps() == recent(
                old(self).timestamps(),
                now,
            ),
    {
        let mut kept: Vec<u64> = Vec::new();
        let mut i: usize = 0;
        assert(self.crashes@.subrange(0, 0) =~= Seq::<u64>::empty());
        while i < self.crashes.len()
            invariant
                i <= self.crashes@.len(),
                self.crashes@ == old(self).crashes@,
                self.limit == old(self).limit,
                kept@ == recent(self.crashes@.subrange(0, i as int), now),
            decreases self.crashes@.len() - i,
        {
            let t: u64 = self.crashes[i];
            proof {
                let next = self.crashes@.subrange(0, i + 1);
                assert(next.drop_last() =~= self.crashes@.subrange(0, i as int));
                assert(next.last() == t);
            }
            if t > now || now - t < CRASH_WINDOW_MS {
                kept.push(t);
            }
            i = i + 1;
        }
        assert(self.crashes@.subrange(0, self.crashes@.len() as int) =~= self.crashes@);
        let earlier: usize = kept.len();
        if earlier < self.limit {
            kept.push(now);
            self.crashes = kept;
            CrashDecision::Restart { delay_ms: backoff(earlier) }
        } else {
            self.crashes = kept;
            CrashDecision::Failed
        }
    }

    /// Forgets every crash, as after sixty seconds of uninterrupted running.
    pub fn reset(&mut self)
        ensures
            final(self).timestamps().len() == 0,
            final(self).limit() == old(self).limit(),
    {
        self.crashes = Vec::new();
    }

    /// The number of crashes in the window ending at `now`.
    pub fn crashes_in_window(&self, now: u64) -> (n: usize)
        ensures
            n == recent(self.timestamps(), now).len(),
    {
        let mut n: usize = 0;
        let mut i: usize = 0;
        assert(self.crashes@.subrange(0, 0) =~= Seq::<u64>::empty());
        while i < self.crashes.len()
            invariant
                i <= self.crashes@.len(),
                n <= i,
                n == recent(self.crashes@.subrange(0, i as int), now).len(),
            decreases self.crashes@.len() - i,
        {
            let t: u64 = self.crashes[i];
            proof {
                let next = self.crashes@.subrange(0, i + 1);
                assert(next.drop_last() =~= self.crashes@.subrange(0, i as int));
                assert(next.last() == t);
            }
            if t > now || now - t < CRASH_WINDOW_MS {
                n = n + 1;
            }
            i = i + 1;
        }
        assert(self.crashes@.subrange(0, self.crashes@.len() as int) =~= self.crashes@);
        n
    }
}

/// Every crash kept in the window lies in it.
pub proof fn lemma_recent_in_window(ts: Seq<u64>, now: u64)
    ensures
        forall|i: int| 0 <= i < recent(ts, now).len() ==> in_window(#[trigger] recent(ts, now)[i], now),
        recent(ts, now).len() <= ts.len(),
    decreases ts.len(),
{
    if ts.len() > 0 {
        lemma_recent_in_window(ts.drop_last(), now);
    }
}

} // verus!
