use vstd::prelude::*;

verus! {

/// The first tick boundary strictly after `now`, on the grid
/// `next, next + interval, next + 2 * interval, ...`.
pub open spec fn first_boundary_after(next: int, interval: int, now: int) -> int {
    next + ((now - next) / interval + 1) * interval
}

/// A periodic timer for a polling worker, with time given as milliseconds
/// on a monotonic clock.
///
/// The first tick fires at once. After that a tick is due every
/// `interval_ms`; when the caller has fallen behind by more than one
/// interval, the missed ticks are skipped and the schedule moves to the
/// next boundary in the future, so that only one tick fires.
pub struct SyncInterval {
    pub interval_ms: u64,
    pub next_tick_ms: u64,
    pub is_first: bool,
}

impl SyncInterval {
    /// A timer whose schedule starts at `now_ms`.
    pub fn new(interval_ms: u64, now_ms: u64) -> (r: SyncInterval)
        ensures
            r.interval_ms == interval_ms,
            r.next_tick_ms == now_ms,
            r.is_first,
    {
        SyncInterval { interval_ms, next_tick_ms: now_ms, is_first: true }
    }

    /// Advances the schedule at time `now_ms` and returns how many
    /// milliseconds to wait before the tick fires.
    pub fn tick(&mut self, now_ms: u64) -> (wait_ms: u64)
        requires
            old(self).interval_ms > 0,
            old(self).next_tick_ms + old(self).interval_ms <= u64::MAX,
            now_ms + old(self).interval_ms <= u64::MAX,
        ensures
            final(self).interval_ms == old(self).interval_ms,
            !final(self).is_first,
            old(self).is_first ==> wait_ms == 0 && final(self).next_tick_ms
                == old(self).next_tick_ms,
            !old(self).is_first && now_ms <= old(self).next_tick_ms ==> wait_ms
                == old(self).next_tick_ms - now_ms && final(self).next_tick_ms
                == old(self).next_tick_ms + old(self).interval_ms,
            !old(self).is_first && old(self).next_tick_ms < now_ms ==> final(self).next_tick_ms
                == first_boundary_after(
                old(self).next_tick_ms as int,
                old(self).interval_ms as int,
                now_ms as int,
            ) && wait_ms == final(self).next_tick_ms - now_ms,
    {
        if self.is_first {
            self.is_first = false;
            0
        } else if now_ms <= self.next_tick_ms {
            let wait_ms = self.next_tick_ms - now_ms;
            self.next_tick_ms = self.next_tick_ms + self.interval_ms;
            wait_ms
        } else {
            let behind = now_ms - self.next_tick_ms;
            let into_interval = behind % self.interval_ms;
            proof {
                lemma_boundary_by_remainder(
                    self.next_tick_ms as int,
                    self.interval_ms as int,
                    now_ms as int,
                );
            }
            self.next_tick_ms = now_ms + (self.interval_ms - into_interval);
            self.interval_ms - into_interval
        }
    }
}

proof fn lemma_boundary_by_remainder(next: int, interval: int, now: int)
    requires
        interval > 0,
        next < now,
    ensures
        first_boundary_after(next, interval, now) == now + (interval - (now - next)
            % interval),
{
    let behind = now - next;
    let q = behind / interval;
    vstd::arithmetic::div_mod::lemma_fundamental_div_mod(behind, interval);
    assert((q + 1) * interval == interval * q + interval) by (nonlinear_arith);
}

/// After the caller has fallen behind the schedule, exactly one tick is
/// scheduled: the next one lies strictly after `now` and at most one
/// interval later, stays on the original grid of boundaries, and no other
/// boundary of that grid lies between `now` and it.
pub proof fn lemma_catch_up_single_tick(next: int, interval: int, now: int)
    requires
        interval > 0,
        next < now,
    ensures
        now < first_boundary_after(next, interval, now) <= now + interval,
        (first_boundary_after(next, interval, now) - next) % interval == 0,
        forall|k: int|
            k >= 0 && now < #[trigger] (next + k * interval) ==> first_boundary_after(
                next,
                interval,
                now,
            ) <= next + k * interval,
{
    let behind = now - next;
    let q = behind / interval;
    lemma_boundary_by_remainder(next, interval, now);
    vstd::arithmetic::div_mod::lemma_fundamental_div_mod(behind, interval);
    vstd::arithmetic::div_mod::lemma_mod_multiples_basic(q + 1, interval);
    assert forall|k: int| k >= 0 && now < #[trigger] (next + k * interval) implies first_boundary_after(
        next,
        interval,
        now,
    ) <= next + k * interval by {
        if k < q + 1 {
            assert(k <= q);
            assert(k * interval <= q * interval) by (nonlinear_arith)
                requires
                    k <= q,
                    interval > 0,
            ;
        } else {
            assert(k * interval >= (q + 1) * interval) by (nonlinear_arith)
                requires
                    k >= q + 1,
                    interval > 0,
            ;
        }
    }
}

} // verus!
