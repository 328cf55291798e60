//! The per-client rate limiter: a bounded table of request counters that is cleared
//! as a whole once the shared window has run out.

use crate::clock::{clock_elapsed_nanos, clock_now};
use crate::identity::ClientIdentity;
use crate::lru_table::{
    lru_capacity, lru_clear, lru_entries, lru_get, lru_get_mut, lru_new, lru_put, moved_to_front,
    Table, MAX_TABLE_ENTRIES,
};
use crate::rate_window::{bumped, RateWindow, WINDOW_NANOS};
use std::time::Instant;
use vstd::prelude::*;

verus! {

/// Counts the requests of each client identity within the current window and says
/// when an identity has reached its quota.
///
/// The limiter keeps its own clock, which starts at zero when the limiter is made
/// and counts nanoseconds.
///
/// Every recording takes the limiter by `&mut`, so that no two of them interleave.
/// Callers that share one limiter keep it behind a lock and hold the lock for the
/// one call.
pub struct IpRateLimit {
    requests: Table,
    rate_limit: u16,
    started: Instant,
    last_cleared: u128,
}

impl View for IpRateLimit {
    type V = RateWindow;

    closed spec fn view(&self) -> RateWindow {
        RateWindow {
            entries: lru_entries(self.requests),
            capacity: lru_capacity(self.requests),
            quota: self.rate_limit,
            window_start: self.last_cleared as nat,
        }
    }
}

impl IpRateLimit {
    #[verifier::type_invariant]
    spec fn inv(self) -> bool {
        self@.wf()
    }

    /// A limiter for at most `size` identities at a time, each of which is over its
    /// limit from its `rate_limit`-th request within a window on. Its clock starts
    /// now, and so does its first window.
    pub fn new(size: usize, rate_limit: u16) -> (limiter: IpRateLimit)
        requires
            0 < size <= MAX_TABLE_ENTRIES,
        ensures
            limiter@ == RateWindow::fresh(size as nat, rate_limit),
            limiter@.wf(),
    {
        IpRateLimit { requests: lru_new(size), rate_limit, started: clock_now(), last_cleared: 0 }
    }

    /// A limiter like that of [`IpRateLimit::new`], where `size` is a number of rows
    /// a table can be made with, and `None` where it is not.
    pub fn try_new(size: usize, rate_limit: u16) -> (limiter: Option<IpRateLimit>)
        ensures
            limiter is Some <==> 0 < size <= MAX_TABLE_ENTRIES,
            limiter matches Some(made) ==> made@ == RateWindow::fresh(size as nat, rate_limit)
                && made@.wf(),
    {
        if 0 < size && size <= MAX_TABLE_ENTRIES {
            Some(IpRateLimit::new(size, rate_limit))
        } else {
            None
        }
    }

    /// The present time on the limiter's clock.
    pub fn now(&self) -> u128 {
        clock_elapsed_nanos(&self.started)
    }

    /// Records one request of `ip` that comes at the time `now` on the limiter's
    /// clock, and says whether `ip` has reached its quota with it.
    ///
    /// Where the window has run out by `now`, all counters are dropped first and a new
    /// window begins at `now`. Then the request is counted, which may evict the least
    /// recently seen identity from a full table.
    pub fn record_and_check(&mut self, ip: &ClientIdentity, now: u128) -> (limited: bool)
        ensures
            final(self)@ == old(self)@.record(ip@, now as nat),
            final(self)@.wf(),
            limited == final(self)@.over_limit(ip@),
    {
        proof {
            use_type_invariant(&*self);
        }
        let key = ip.key();
        if now >= self.last_cleared && now - self.last_cleared >= WINDOW_NANOS {
            lru_clear(&mut self.requests);
            self.last_cleared = now;
        }
        let ghost before = self@;
        assert(before == if old(self)@.expired_at(now as nat) {
            old(self)@.cleared(now as nat)
        } else {
            old(self)@
        });
        match lru_get_mut(&mut self.requests, &key) {
            Some(count) => {
                *count = count.saturating_add(1);
            },
            None => {
                lru_put(&mut self.requests, key, 1);
            },
        }
        proof {
            // No key has two rows, so the row that the table found is the row that
            // the model picks.
            before.lemma_counted(key);
            if before.holds(key) {
                let i = choose|i: int|
                    0 <= i < before.entries.len() && (#[trigger] before.entries[i]).0 == key
                        && self@.entries == moved_to_front(
                        before.entries,
                        i,
                        bumped(before.entries[i].1),
                    );
                before.lemma_row_unique(key, i);
            }
        }
        let ghost counted = self@;
        let limit = self.rate_limit;
        let limited = match lru_get(&mut self.requests, &key) {
            Some(count) => *count >= limit,
            None => false,
        };
        proof {
            // The row of `key` is in front already, so looking it up moves nothing.
            counted.lemma_row_unique(key, 0);
            assert(self@.entries =~= counted.entries);
        }
        limited
    }

    /// Records one request of `ip` that comes now, and says whether `ip` has reached
    /// its quota with it.
    ///
    /// The time is read from the limiter's clock; whatever it says, the outcome is
    /// that of [`IpRateLimit::record_and_check`] at that time.
    pub fn should_limit(&mut self, ip: &ClientIdentity) -> (limited: bool)
        ensures
            exists|now: nat| final(self)@ == #[trigger] old(self)@.record(ip@, now),
            final(self)@.wf(),
            limited == final(self)@.over_limit(ip@),
    {
        let now = self.now();
        let limited = self.record_and_check(ip, now);
        limited
    }
}

} // verus!
