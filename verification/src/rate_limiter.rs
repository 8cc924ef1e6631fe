//! Token bucket rate limiting for console output and byte accounting.

use vstd::prelude::*;

verus! {

/// Length of one refill interval, in milliseconds.
pub const REFILL_INTERVAL_MS: u64 = 1000;

/// The state of a bucket as a mathematical value.
pub struct BucketModel {
    pub tokens: nat,
    pub last_refill: nat,
    pub capacity: nat,
    pub rate: nat,
}

/// Whole refill intervals elapsed between `last` and `now`.
pub open spec fn intervals_between(last: nat, now: nat) -> nat {
    if now >= last {
        ((now - last) / 1000) as nat
    } else {
        0
    }
}

/// The smaller of two naturals.
pub open spec fn min_nat(a: nat, b: nat) -> nat {
    if a <= b {
        a
    } else {
        b
    }
}

/// The bucket after a lazy refill observed at time `now`.
pub open spec fn refilled(m: BucketModel, now: nat) -> BucketModel {
    if intervals_between(m.last_refill, now) >= 1 {
        BucketModel {
            tokens: min_nat(m.tokens + intervals_between(m.last_refill, now) * m.rate, m.capacity),
            last_refill: now,
            capacity: m.capacity,
            rate: m.rate,
        }
    } else {
        m
    }
}

/// Whether an acquisition of `n` tokens at time `now` succeeds.
pub open spec fn acquire_succeeds(m: BucketModel, now: nat, n: nat) -> bool {
    refilled(m, now).tokens >= n
}

/// The bucket after an attempt to take `n` tokens at time `now`.
pub open spec fn after_acquire(m: BucketModel, now: nat, n: nat) -> BucketModel {
    let r = refilled(m, now);
    if r.tokens >= n {
        BucketModel { tokens: (r.tokens - n) as nat, ..r }
    } else {
        r
    }
}

/// Refillable counter allowing bursts up to its capacity at a steady average rate.
pub struct TokenBucket {
    tokens: u64,
    last_refill: u64,
    max_tokens: u64,
    tokens_per_interval: u64,
}

/// Reads the wall clock through `std::time::SystemTime::now` and returns the
/// milliseconds since the Unix epoch, or 0 when the clock is before the epoch.
/// Nothing is claimed of the value: it differs from call to call.
#[verifier::external_body]
pub(crate) fn current_time_ms() -> (now: u64) {
    match std::time::SystemTime::now().duration_since(std::time::UNIX_EPOCH) {
        Ok(d) => d.as_millis() as u64,
        Err(_) => 0,
    }
}

impl TokenBucket {
    /// The bucket never holds more than its capacity.
    #[verifier::type_invariant]
    spec fn wf(&self) -> bool {
        self.tokens <= self.max_tokens
    }

    /// The bucket as a mathematical value.
    pub closed spec fn view(&self) -> BucketModel {
        BucketModel {
            tokens: self.tokens as nat,
            last_refill: self.last_refill as nat,
            capacity: self.max_tokens as nat,
            rate: self.tokens_per_interval as nat,
        }
    }

    /// A full bucket whose last refill is `now`.
    pub fn new_at(capacity: u64, rate_per_second: u64, now: u64) -> (b: Self)
        ensures
            b@ == (BucketModel {
                tokens: capacity as nat,
                last_refill: now as nat,
                capacity: capacity as nat,
                rate: rate_per_second as nat,
            }),
    {
        TokenBucket {
            tokens: capacity,
            last_refill: now,
            max_tokens: capacity,
            tokens_per_interval: rate_per_second,
        }
    }

    /// A full bucket stamped with the current wall-clock time.
    pub fn new(capacity: u64, rate_per_second: u64) -> (b: Self)
        ensures
            b@.tokens == capacity,
            b@.capacity == capacity,
            b@.rate == rate_per_second,
    {
        let now: u64 = current_time_ms();
        Self::new_at(capacity, rate_per_second, now)
    }

    /// Adds the tokens earned since the last refill, capped at capacity.
    pub fn refill_at(&mut self, now: u64)
        ensures
            final(self)@ == refilled(old(self)@, now as nat),
    {
        proof {
            use_type_invariant(&*self);
        }
        if now >= self.last_refill && now - self.last_refill >= REFILL_INTERVAL_MS {
            let intervals: u64 = (now - self.last_refill) / REFILL_INTERVAL_MS;
            let room: u64 = self.max_tokens - self.tokens;
            let ghost exact: nat = (intervals as nat) * (self.tokens_per_interval as nat);
            let new_tokens: u64 = match intervals.checked_mul(self.tokens_per_interval) {
                Some(to_add) => {
                    if to_add >= room {
                        self.max_tokens
                    } else {
                        self.tokens + to_add
                    }
                },
                None => {
                    self.max_tokens
                },
            };
            assert(new_tokens as nat == min_nat(self.tokens as nat + exact, self.max_tokens as nat));
            self.last_refill = now;
            self.tokens = new_tokens;
        }
    }

    /// Takes `tokens_needed` tokens at time `now` if the refilled bucket holds that many.
    pub fn try_acquire_at(&mut self, tokens_needed: u64, now: u64) -> (ok: bool)
        ensures
            ok == acquire_succeeds(old(self)@, now as nat, tokens_needed as nat),
            final(self)@ == after_acquire(old(self)@, now as nat, tokens_needed as nat),
    {
        self.refill_at(now);
        proof {
            use_type_invariant(&*self);
        }
        if self.tokens >= tokens_needed {
            self.tokens = self.tokens - tokens_needed;
            true
        } else {
            false
        }
    }

    /// Takes `tokens_needed` tokens at the current wall-clock time. Whatever the
    /// clock says, a bucket that already holds enough tokens grants the request,
    /// and the bucket never exceeds its capacity.
    pub fn try_acquire(&mut self, tokens_needed: u64) -> (ok: bool)
        ensures
            exists|now: u64|
                final(self)@ == #[trigger] after_acquire(old(self)@, now as nat, tokens_needed as nat)
                    && ok == acquire_succeeds(old(self)@, now as nat, tokens_needed as nat),
            final(self)@.capacity == old(self)@.capacity,
            final(self)@.rate == old(self)@.rate,
            final(self)@.tokens <= final(self)@.capacity,
            old(self)@.tokens >= tokens_needed ==> ok,
            ok ==> final(self)@.tokens + tokens_needed <= final(self)@.capacity,
            !ok ==> final(self)@.tokens < tokens_needed && final(self)@.tokens >= old(self)@.tokens,
    {
        proof {
            use_type_invariant(&*self);
        }
        let now: u64 = current_time_ms();
        let ok = self.try_acquire_at(tokens_needed, now);
        assert(self@ == after_acquire(old(self)@, now as nat, tokens_needed as nat));
        ok
    }

    /// Tokens available at time `now`, after the lazy refill.
    pub fn available_tokens_at(&mut self, now: u64) -> (n: u64)
        ensures
            final(self)@ == refilled(old(self)@, now as nat),
            n == final(self)@.tokens,
    {
        self.refill_at(now);
        self.tokens
    }

    /// Tokens available at the current wall-clock time.
    pub fn available_tokens(&mut self) -> (n: u64)
        ensures
            exists|now: u64| final(self)@ == #[trigger] refilled(old(self)@, now as nat),
            n == final(self)@.tokens,
            n <= final(self)@.capacity,
            n >= old(self)@.tokens,
            final(self)@.capacity == old(self)@.capacity,
            final(self)@.rate == old(self)@.rate,
    {
        proof {
            use_type_invariant(&*self);
        }
        let now: u64 = current_time_ms();
        let n = self.available_tokens_at(now);
        assert(self@ == refilled(old(self)@, now as nat));
        n
    }
}

/// Accounting of the bytes written to an archive against a rate limit. The
/// writer is never held back: a write over the limit is only counted.
pub struct WriteAccount {
    bucket: TokenBucket,
    written: u64,
    over_limit: u64,
}

/// A count that stops at the largest value.
pub open spec fn capped_sum(a: u64, b: u64) -> u64 {
    if a + b <= u64::MAX {
        (a + b) as u64
    } else {
        u64::MAX
    }
}

impl WriteAccount {
    /// The bucket of the limit.
    pub closed spec fn view(&self) -> BucketModel {
        self.bucket@
    }

    /// Bytes written so far.
    pub closed spec fn written(&self) -> u64 {
        self.written
    }

    /// Writes that found the bucket short.
    pub closed spec fn over_limit(&self) -> u64 {
        self.over_limit
    }

    /// An account for a limit of `rate_limit_mib` MiB per second, starting
    /// at `now` with a full bucket of one second's worth; `None` when the
    /// limit in bytes does not fit 64 bits.
    pub fn new_at(rate_limit_mib: u64, now: u64) -> (r: Option<Self>)
        ensures
            r.is_some() == (rate_limit_mib * 1048576 <= u64::MAX),
            r.is_some() ==> r.unwrap()@ == (BucketModel {
                tokens: (rate_limit_mib * 1048576) as nat,
                last_refill: now as nat,
                capacity: (rate_limit_mib * 1048576) as nat,
                rate: (rate_limit_mib * 1048576) as nat,
            }) && r.unwrap().written() == 0 && r.unwrap().over_limit() == 0,
    {
        match rate_limit_mib.checked_mul(1048576) {
            Some(bytes) => Some(
                WriteAccount { bucket: TokenBucket::new_at(bytes, bytes, now), written: 0, over_limit: 0 },
            ),
            None => None,
        }
    }

    /// Accounts for a write of `n` bytes at `now` and reports whether it was
    /// within the limit. The write proceeds either way.
    pub fn account_at(&mut self, n: u64, now: u64) -> (within: bool)
        ensures
            within == acquire_succeeds(old(self)@, now as nat, n as nat),
            final(self)@ == after_acquire(old(self)@, now as nat, n as nat),
            final(self).written() == capped_sum(old(self).written(), n),
            final(self).over_limit() == if within {
                old(self).over_limit()
            } else {
                capped_sum(old(self).over_limit(), 1)
            },
    {
        let within = self.bucket.try_acquire_at(n, now);
        self.written = self.written.saturating_add(n);
        if !within {
            self.over_limit = self.over_limit.saturating_add(1);
        }
        within
    }

    /// Bytes written so far.
    pub fn bytes_written(&self) -> (n: u64)
        ensures
            n == self.written(),
    {
        self.written
    }

    /// Writes that found the bucket short.
    pub fn writes_over_limit(&self) -> (n: u64)
        ensures
            n == self.over_limit(),
    {
        self.over_limit
    }
}

/// Console output rate limiter of one server: one token per line.
pub struct ConsoleThrottle {
    bucket: TokenBucket,
}

impl ConsoleThrottle {
    /// The bucket behind the throttle.
    pub closed spec fn view(&self) -> BucketModel {
        self.bucket@
    }

    /// The default throttle: 60 lines per second with bursts of 120 lines.
    pub fn new() -> (t: Self)
        ensures
            t@.tokens == 120,
            t@.capacity == 120,
            t@.rate == 60,
    {
        ConsoleThrottle { bucket: TokenBucket::new(120, 60) }
    }

    /// A throttle with the given burst capacity and rate.
    pub fn with_config(burst_capacity: u64, lines_per_second: u64) -> (t: Self)
        ensures
            t@.tokens == burst_capacity,
            t@.capacity == burst_capacity,
            t@.rate == lines_per_second,
    {
        ConsoleThrottle { bucket: TokenBucket::new(burst_capacity, lines_per_second) }
    }

    /// A throttle whose bucket was last refilled at `now`.
    pub fn with_config_at(burst_capacity: u64, lines_per_second: u64, now: u64) -> (t: Self)
        ensures
            t@ == (BucketModel {
                tokens: burst_capacity as nat,
                last_refill: now as nat,
                capacity: burst_capacity as nat,
                rate: lines_per_second as nat,
            }),
    {
        ConsoleThrottle { bucket: TokenBucket::new_at(burst_capacity, lines_per_second, now) }
    }

    /// Whether one line may be sent now.
    pub fn allow_line(&mut self) -> (ok: bool)
        ensures
            exists|now: u64|
                final(self)@ == #[trigger] after_acquire(old(self)@, now as nat, 1) && ok
                    == acquire_succeeds(old(self)@, now as nat, 1),
            final(self)@.capacity == old(self)@.capacity,
            final(self)@.rate == old(self)@.rate,
            final(self)@.tokens <= final(self)@.capacity,
            old(self)@.tokens >= 1 ==> ok,
            ok ==> final(self)@.tokens + 1 <= final(self)@.capacity,
            !ok ==> final(self)@.tokens == 0,
    {
        let ok = self.bucket.try_acquire(1);
        proof {
            let t = choose|now: u64|
                self.bucket@ == #[trigger] after_acquire(old(self).bucket@, now as nat, 1) && ok
                    == acquire_succeeds(old(self).bucket@, now as nat, 1);
            assert(self@ == after_acquire(old(self)@, t as nat, 1));
        }
        ok
    }

    /// Whether `count` lines may be sent now.
    pub fn allow_lines(&mut self, count: u64) -> (ok: bool)
        ensures
            exists|now: u64|
                final(self)@ == #[trigger] after_acquire(old(self)@, now as nat, count as nat) && ok
                    == acquire_succeeds(old(self)@, now as nat, count as nat),
            final(self)@.capacity == old(self)@.capacity,
            final(self)@.rate == old(self)@.rate,
            final(self)@.tokens <= final(self)@.capacity,
            old(self)@.tokens >= count ==> ok,
            ok ==> final(self)@.tokens + count <= final(self)@.capacity,
            !ok ==> final(self)@.tokens < count && final(self)@.tokens >= old(self)@.tokens,
    {
        let ok = self.bucket.try_acquire(count);
        proof {
            let t = choose|now: u64|
                self.bucket@ == #[trigger] after_acquire(old(self).bucket@, now as nat, count as nat)
                    && ok == acquire_succeeds(old(self).bucket@, now as nat, count as nat);
            assert(self@ == after_acquire(old(self)@, t as nat, count as nat));
        }
        ok
    }

    /// Whether `count` lines may be sent at time `now`.
    pub fn allow_lines_at(&mut self, count: u64, now: u64) -> (ok: bool)
        ensures
            ok == acquire_succeeds(old(self)@, now as nat, count as nat),
            final(self)@ == after_acquire(old(self)@, now as nat, count as nat),
    {
        self.bucket.try_acquire_at(count, now)
    }

    /// Lines that may be sent now.
    pub fn available_tokens(&mut self) -> (n: u64)
        ensures
            exists|now: u64| final(self)@ == #[trigger] refilled(old(self)@, now as nat),
            n == final(self)@.tokens,
            n <= final(self)@.capacity,
            n >= old(self)@.tokens,
            final(self)@.capacity == old(self)@.capacity,
            final(self)@.rate == old(self)@.rate,
    {
        let n = self.bucket.available_tokens();
        proof {
            let t = choose|now: u64| self.bucket@ == #[trigger] refilled(old(self).bucket@, now as nat);
            assert(self@ == refilled(old(self)@, t as nat));
        }
        n
    }
}

impl Default for ConsoleThrottle {
    fn default() -> (t: Self)
        ensures
            t@.tokens == 120,
            t@.capacity == 120,
            t@.rate == 60,
    {
        ConsoleThrottle::new()
    }
}

/// The tokens of a bucket stay within its capacity whatever is asked of it.
pub proof fn lemma_tokens_bounded(m: BucketModel, now: nat, n: nat)
    requires
        m.tokens <= m.capacity,
    ensures
        refilled(m, now).tokens <= m.capacity,
        after_acquire(m, now, n).tokens <= m.capacity,
        after_acquire(m, now, n).capacity == m.capacity,
        after_acquire(m, now, n).rate == m.rate,
{
}

/// The tokens granted by a run of single-token requests.
pub open spec fn granted(m: BucketModel, times: Seq<nat>) -> nat
    decreases times.len(),
{
    if times.len() == 0 {
        0
    } else {
        let before = state_after_requests(m, times.drop_last());
        granted(m, times.drop_last()) + if acquire_succeeds(before, times.last(), 1) {
            1nat
        } else {
            0nat
        }
    }
}

/// The bucket after a run of single-token requests at the given times.
pub open spec fn state_after_requests(m: BucketModel, times: Seq<nat>) -> BucketModel
    decreases times.len(),
{
    if times.len() == 0 {
        m
    } else {
        after_acquire(state_after_requests(m, times.drop_last()), times.last(), 1)
    }
}

/// Whether the times never run backwards and none precedes `start`.
pub open spec fn non_decreasing_from(start: nat, times: Seq<nat>) -> bool {
    &&& forall|i: int| 0 <= i < times.len() ==> start <= #[trigger] times[i]
    &&& forall|i: int, j: int| 0 <= i <= j < times.len() ==> times[i] <= times[j]
}

/// The latest time among the bucket's last refill and the requests.
pub open spec fn end_time(m: BucketModel, times: Seq<nat>) -> nat {
    if times.len() == 0 {
        m.last_refill
    } else {
        times.last()
    }
}

/// Over any run of single-token requests at non-decreasing times, the number
/// granted is at most the tokens held at the start plus the rate for every
/// whole second elapsed; with a bucket that starts within capacity, at most
/// the capacity plus elapsed time times rate.
pub proof fn lemma_grants_bounded(m: BucketModel, times: Seq<nat>)
    requires
        m.tokens <= m.capacity,
        non_decreasing_from(m.last_refill, times),
    ensures
        state_after_requests(m, times).tokens <= m.capacity,
        state_after_requests(m, times).capacity == m.capacity,
        state_after_requests(m, times).rate == m.rate,
        m.last_refill <= state_after_requests(m, times).last_refill <= end_time(m, times),
        granted(m, times) + state_after_requests(m, times).tokens <= m.tokens + ((
        state_after_requests(m, times).last_refill - m.last_refill) / 1000) * m.rate,
        granted(m, times) <= m.capacity + ((end_time(m, times) - m.last_refill) / 1000) * m.rate,
    decreases times.len(),
{
    if times.len() > 0 {
        let head = times.drop_last();
        let t = times.last();
        assert(non_decreasing_from(m.last_refill, head)) by {
            assert forall|i: int| 0 <= i < head.len() implies m.last_refill <= #[trigger] head[i] by {
                assert(head[i] == times[i]);
            }
            assert forall|i: int, j: int| 0 <= i <= j < head.len() implies head[i] <= head[j] by {
                assert(head[i] == times[i] && head[j] == times[j]);
            }
        }
        lemma_grants_bounded(m, head);
        let s = state_after_requests(m, head);
        assert(s.last_refill <= t) by {
            if head.len() > 0 {
                assert(head.last() == times[head.len() - 1]);
            }
        }
        let a: int = s.last_refill - m.last_refill;
        let b: int = t - s.last_refill;
        lemma_div_superadditive(a, b);
        let r: int = m.rate as int;
        assert((a / 1000) * r + (b / 1000) * r <= ((a + b) / 1000) * r) by (nonlinear_arith)
            requires
                a / 1000 + b / 1000 <= (a + b) / 1000,
                r >= 0,
        ;
        lemma_elapsed_monotone(
            state_after_requests(m, times).last_refill - m.last_refill,
            end_time(m, times) - m.last_refill,
            r,
        );
    }
}

proof fn lemma_div_superadditive(a: int, b: int)
    requires
        a >= 0,
        b >= 0,
    ensures
        a / 1000 + b / 1000 <= (a + b) / 1000,
{
}

proof fn lemma_elapsed_monotone(a: int, b: int, r: int)
    requires
        0 <= a <= b,
        r >= 0,
    ensures
        (a / 1000) * r <= (b / 1000) * r,
{
    assert(a / 1000 <= b / 1000);
    assert((a / 1000) * r <= (b / 1000) * r) by (nonlinear_arith)
        requires
            a / 1000 <= b / 1000,
            r >= 0,
    ;
}

} // verus!
