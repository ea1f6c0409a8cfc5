//! Leaky-bucket rate limiting.
//!
//! A bucket admits at most `capacity` calls in a burst and refills one
//! admission every `interval` nanoseconds.  The accounting state is a
//! single theoretical-arrival-time stamp `tat`; the check-and-consume
//! step is the only part that touches it, so a caller serializes access
//! to the bucket and performs the (slow) guarded operation outside it.

use vstd::prelude::*;

verus! {

/// Times are nanosecond counts below this bound (about 36 years), so the
/// accounting arithmetic stays far away from `u64` overflow.
pub const MAX_TIME: u64 = 0x1000_0000_0000_0000;

/// The bucket admits a call at `now` when its stamp has not run more than
/// a full burst ahead of the clock.
pub open spec fn admits(tat: int, now: int, capacity: int, interval: int) -> bool {
    tat <= now + (capacity - 1) * interval
}

/// Stamp after one admission at `now`.
pub open spec fn next_tat(tat: int, now: int, interval: int) -> int {
    if tat >= now {
        tat + interval
    } else {
        now + interval
    }
}

/// One leaky bucket.  `level` in the abstract model is how far `tat` runs
/// ahead of the clock, measured in whole intervals; it is never negative
/// and admission keeps it at most `capacity`.
pub struct LeakyBucket {
    pub capacity: u64,
    pub interval: u64,
    pub tat: u64,
}

/// Decision of one check: run now, or sleep until the given time and
/// check again.
pub enum RateDecision {
    Admit,
    WaitUntil(u64),
}

impl LeakyBucket {
    pub open spec fn wf(self) -> bool {
        &&& 1 <= self.capacity <= 0x1_0000
        &&& 1 <= self.interval <= 0x1_0000_0000
        &&& self.tat <= MAX_TIME + 0x2_0000_0000_0000
    }

    /// A bucket admitting `rate` calls per second, idle since `start`.
    pub fn per_second(rate: u64, start: u64) -> (b: LeakyBucket)
        requires
            1 <= rate <= 1000,
            start <= MAX_TIME,
        ensures
            b.wf(),
            b.capacity == rate,
            b.interval == 1_000_000_000u64 / rate,
            b.tat == start,
    {
        let interval = 1_000_000_000 / rate;
        proof {
            assert(1_000_000u64 <= 1_000_000_000u64 as int / rate as int <= 1_000_000_000u64)
                by (nonlinear_arith)
                requires
                    1 <= rate <= 1000,
            ;
        }
        LeakyBucket { capacity: rate, interval, tat: start }
    }

    /// The check-and-consume step: admit the call and advance the stamp,
    /// or report the earliest time at which a re-check can admit it.
    pub fn check(&mut self, now: u64) -> (r: RateDecision)
        requires
            old(self).wf(),
            now <= MAX_TIME,
        ensures
            final(self).wf(),
            final(self).capacity == old(self).capacity,
            final(self).interval == old(self).interval,
            match r {
                RateDecision::Admit => admits(
                    old(self).tat as int,
                    now as int,
                    old(self).capacity as int,
                    old(self).interval as int,
                ) && final(self).tat == next_tat(
                    old(self).tat as int,
                    now as int,
                    old(self).interval as int,
                ),
                RateDecision::WaitUntil(t) => !admits(
                    old(self).tat as int,
                    now as int,
                    old(self).capacity as int,
                    old(self).interval as int,
                ) && *final(self) == *old(self) && now < t && t == old(self).tat - (old(
                    self,
                ).capacity - 1) * old(self).interval,
            },
    {
        proof {
            assert((self.capacity - 1) * self.interval <= 0xFFFF * 0x1_0000_0000) by (
            nonlinear_arith)
                requires
                    1 <= self.capacity <= 0x1_0000,
                    1 <= self.interval <= 0x1_0000_0000,
            ;
        }
        let burst = (self.capacity - 1) * self.interval;
        if self.tat <= now + burst {
            if self.tat >= now {
                self.tat = self.tat + self.interval;
            } else {
                self.tat = now + self.interval;
            }
            RateDecision::Admit
        } else {
            RateDecision::WaitUntil(self.tat - burst)
        }
    }
}

/// Stamp after admitting a whole sequence of calls at the given times.
pub open spec fn tat_after(tat0: int, times: Seq<int>, interval: int) -> int
    decreases times.len(),
{
    if times.len() == 0 {
        tat0
    } else {
        tat_after(next_tat(tat0, times[0], interval), times.skip(1), interval)
    }
}

/// Every call in `times`, taken in order, was admitted.
pub open spec fn all_admitted(tat0: int, times: Seq<int>, capacity: int, interval: int) -> bool
    decreases times.len(),
{
    times.len() == 0 || (admits(tat0, times[0], capacity, interval) && all_admitted(
        next_tat(tat0, times[0], interval),
        times.skip(1),
        capacity,
        interval,
    ))
}

/// The stamp advances by at least one interval per admission.
proof fn lemma_tat_lower_bound(tat0: int, times: Seq<int>, interval: int)
    requires
        interval >= 1,
    ensures
        tat_after(tat0, times, interval) >= tat0 + times.len() * interval,
    decreases times.len(),
{
    if times.len() > 0 {
        let t1 = next_tat(tat0, times[0], interval);
        lemma_tat_lower_bound(t1, times.skip(1), interval);
        assert(t1 >= tat0 + interval);
        assert(times.skip(1).len() * interval == times.len() * interval - interval) by (
        nonlinear_arith)
            requires
                times.skip(1).len() == times.len() - 1,
        ;
    }
}

/// The stamp also runs at least one interval past each admitted time.
proof fn lemma_tat_past_time(tat0: int, times: Seq<int>, interval: int, k: int)
    requires
        interval >= 1,
        0 <= k < times.len(),
    ensures
        tat_after(tat0, times, interval) >= times[k] + (times.len() - k) * interval,
    decreases times.len(),
{
    let t1 = next_tat(tat0, times[0], interval);
    if k == 0 {
        lemma_tat_lower_bound(t1, times.skip(1), interval);
        assert(t1 >= times[0] + interval);
        assert(times.skip(1).len() * interval == times.len() * interval - interval) by (
        nonlinear_arith)
            requires
                times.skip(1).len() == times.len() - 1,
        ;
    } else {
        lemma_tat_past_time(t1, times.skip(1), interval, k - 1);
        assert(times.skip(1)[k - 1] == times[k]);
    }
}

/// No burst outruns the configured rate: if `n` calls beyond the burst
/// capacity are all admitted, the last admission happens at least
/// `(n - capacity)` intervals after the stamp the bucket started from.
/// For a bucket idle since time `t0` (so `tat0 == t0`) and `n >= capacity
/// + 1` rapid calls, finishing them takes at least `(n - capacity)`
/// refill periods.
pub proof fn lemma_rate_floor(tat0: int, times: Seq<int>, capacity: int, interval: int)
    requires
        capacity >= 1,
        interval >= 1,
        times.len() >= 1,
        all_admitted(tat0, times, capacity, interval),
    ensures
        times.last() >= tat0 + (times.len() - capacity) * interval,
    decreases times.len(),
{
    if times.len() == 1 {
        assert(admits(tat0, times[0], capacity, interval));
        assert(times.last() == times[0]);
        assert((1 - capacity) * interval == -((capacity - 1) * interval)) by (nonlinear_arith);
    } else {
        let prefix = times.drop_last();
        let last = times.last();
        lemma_all_admitted_prefix(tat0, times, capacity, interval);
        assert(admits(tat_after(tat0, prefix, interval), last, capacity, interval));
        lemma_tat_lower_bound(tat0, prefix, interval);
        assert(last >= tat0 + prefix.len() * interval - (capacity - 1) * interval);
        assert(prefix.len() * interval - (capacity - 1) * interval == (times.len() - capacity)
            * interval) by (nonlinear_arith)
            requires
                prefix.len() == times.len() - 1,
        ;
    }
}

/// Admission of a sequence admits every prefix, and the last call is
/// checked against the stamp the prefix produced.
proof fn lemma_all_admitted_prefix(tat0: int, times: Seq<int>, capacity: int, interval: int)
    requires
        times.len() >= 1,
        all_admitted(tat0, times, capacity, interval),
    ensures
        all_admitted(tat0, times.drop_last(), capacity, interval),
        admits(tat_after(tat0, times.drop_last(), interval), times.last(), capacity, interval),
    decreases times.len(),
{
    if times.len() == 1 {
        assert(times.drop_last() =~= Seq::<int>::empty());
    } else {
        let t1 = next_tat(tat0, times[0], interval);
        lemma_all_admitted_prefix(t1, times.skip(1), capacity, interval);
        assert(times.skip(1).drop_last() =~= times.drop_last().skip(1));
        assert(times.drop_last()[0] == times[0]);
        assert(times.skip(1).last() == times.last());
    }
}

/// Within any window shorter than one refill interval, at most
/// `capacity` calls are admitted: if calls `i` and `j` land in such a
/// window, fewer than `capacity` admissions separate them.
pub proof fn lemma_window_bound(
    tat0: int,
    times: Seq<int>,
    capacity: int,
    interval: int,
    i: int,
    j: int,
)
    requires
        capacity >= 1,
        interval >= 1,
        0 <= i < j < times.len(),
        all_admitted(tat0, times, capacity, interval),
        times[j] < times[i] + interval,
    ensures
        j - i < capacity,
    decreases times.len(),
{
    let up_to_j = times.take(j + 1);
    lemma_all_admitted_take(tat0, times, capacity, interval, j + 1);
    lemma_all_admitted_prefix(tat0, up_to_j, capacity, interval);
    let prefix = up_to_j.drop_last();
    assert(prefix =~= times.take(j));
    lemma_tat_past_time(tat0, prefix, interval, i);
    assert(admits(tat_after(tat0, prefix, interval), times[j], capacity, interval));
    assert(times[j] >= times[i] + (j - i) * interval - (capacity - 1) * interval);
    if j - i >= capacity {
        assert((j - i) * interval - (capacity - 1) * interval >= interval) by (nonlinear_arith)
            requires
                j - i >= capacity,
                interval >= 1,
        ;
    }
}

/// Admission of a sequence admits every prefix.
proof fn lemma_all_admitted_take(
    tat0: int,
    times: Seq<int>,
    capacity: int,
    interval: int,
    n: int,
)
    requires
        0 <= n <= times.len(),
        all_admitted(tat0, times, capacity, interval),
    ensures
        all_admitted(tat0, times.take(n), capacity, interval),
    decreases times.len(),
{
    if n > 0 && times.len() > 0 {
        let t1 = next_tat(tat0, times[0], interval);
        lemma_all_admitted_take(t1, times.skip(1), capacity, interval, n - 1);
        assert(times.take(n)[0] == times[0]);
        assert(times.take(n).skip(1) =~= times.skip(1).take(n - 1));
    } else {
        assert(times.take(n) =~= Seq::<int>::empty());
    }
}

} // verus!
