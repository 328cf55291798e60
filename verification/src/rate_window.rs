//! The mathematical model of the rate limiter: a bounded list of counters, ordered by
//! how recently each identity was seen, and the quota they are held against.

use crate::lru_table::{moved_to_front, pushed_front, row_absent, Entry, IdentityKey};
use vstd::prelude::*;

verus! {

/// The length of the shared window in nanoseconds: 60 seconds. Once this much time
/// has passed since the counters were last cleared, the next recorded request clears
/// them all.
pub const WINDOW_NANOS: u128 = 60_000_000_000;

/// No two rows have the same key.
pub open spec fn distinct_keys(rows: Seq<Entry>) -> bool {
    forall|i: int, j: int|
        0 <= i < j < rows.len() ==> (#[trigger] rows[i]).0 != (#[trigger] rows[j]).0
}

/// The index of the row with the key `key`, where there is one.
pub open spec fn position_of(rows: Seq<Entry>, key: IdentityKey) -> int {
    choose|i: int| 0 <= i < rows.len() && (#[trigger] rows[i]).0 == key
}

/// A counter after one more request. It stops at the largest value it can hold.
pub open spec fn bumped(count: u16) -> u16 {
    if count < u16::MAX {
        (count + 1) as u16
    } else {
        count
    }
}

/// The state of the rate limiter. Times are in nanoseconds on the limiter's own
/// clock, which stood at zero when the limiter was made.
pub struct RateWindow {
    /// One row per identity seen in the current window and not evicted since,
    /// most recently seen first.
    pub entries: Seq<Entry>,
    /// The largest number of rows the table holds.
    pub capacity: nat,
    /// The count from which on an identity is over its limit.
    pub quota: u16,
    /// The time at which the counters were last cleared.
    pub window_start: nat,
}

impl RateWindow {
    /// The invariant of the limiter: a positive capacity, no more rows than the
    /// capacity, and at most one row per identity.
    pub open spec fn wf(self) -> bool {
        &&& self.capacity > 0
        &&& self.entries.len() <= self.capacity
        &&& distinct_keys(self.entries)
    }

    /// A limiter in which no request has been counted yet. Its first window starts
    /// at time zero.
    pub open spec fn fresh(capacity: nat, quota: u16) -> RateWindow {
        RateWindow { entries: Seq::empty(), capacity, quota, window_start: 0 }
    }

    /// Whether the window has run out at the time `now`: 60 seconds or more have
    /// passed since the counters were last cleared.
    pub open spec fn expired_at(self, now: nat) -> bool {
        now - self.window_start >= WINDOW_NANOS
    }

    /// Whether there is a row for `key`.
    pub open spec fn holds(self, key: IdentityKey) -> bool {
        !row_absent(self.entries, key)
    }

    /// The number of requests counted for `key`, where it has a row.
    pub open spec fn count_of(self, key: IdentityKey) -> Option<u16> {
        if self.holds(key) {
            Some(self.entries[position_of(self.entries, key)].1)
        } else {
            None
        }
    }

    /// The limiter with every counter dropped and a new window begun at `now`.
    pub open spec fn cleared(self, now: nat) -> RateWindow {
        RateWindow { entries: Seq::empty(), window_start: now, ..self }
    }

    /// The limiter after one more request of `key` was counted: its row moves to the
    /// front with its counter raised, or a new row with a count of one goes to the
    /// front, for which a full table gives up its least recently seen identity.
    pub open spec fn counted(self, key: IdentityKey) -> RateWindow {
        if self.holds(key) {
            let i = position_of(self.entries, key);
            RateWindow {
                entries: moved_to_front(self.entries, i, bumped(self.entries[i].1)),
                ..self
            }
        } else {
            RateWindow { entries: pushed_front(self.entries, self.capacity, (key, 1u16)), ..self }
        }
    }

    /// The limiter after a request of `key` that came at the time `now` was recorded.
    /// Where the window has run out by then, all counters are dropped first and a new
    /// window begins at `now`. Then the request is counted.
    pub open spec fn record(self, key: IdentityKey, now: nat) -> RateWindow {
        if self.expired_at(now) {
            self.cleared(now).counted(key)
        } else {
            self.counted(key)
        }
    }

    /// Whether `key` has reached its quota.
    pub open spec fn over_limit(self, key: IdentityKey) -> bool {
        match self.count_of(key) {
            Some(count) => count >= self.quota,
            None => false,
        }
    }

    /// The count that `key` has after one more request.
    pub open spec fn next_count(self, key: IdentityKey) -> u16 {
        match self.count_of(key) {
            Some(count) => bumped(count),
            None => 1,
        }
    }

    /// In a well-formed limiter the row of a key is found by its key alone.
    pub proof fn lemma_row_unique(self, key: IdentityKey, i: int)
        requires
            distinct_keys(self.entries),
            0 <= i < self.entries.len(),
            self.entries[i].0 == key,
        ensures
            self.holds(key),
            position_of(self.entries, key) == i,
            self.count_of(key) == Some(self.entries[i].1),
    {
    }

    /// Counting a request keeps the limiter well formed, leaves the identity in the
    /// front row with its raised count, and changes neither capacity nor quota.
    pub proof fn lemma_counted(self, key: IdentityKey)
        requires
            self.wf(),
        ensures
            self.counted(key).wf(),
            self.counted(key).capacity == self.capacity,
            self.counted(key).quota == self.quota,
            self.counted(key).window_start == self.window_start,
            self.counted(key).entries.len() > 0,
            self.counted(key).entries[0] == (key, self.next_count(key)),
            self.counted(key).count_of(key) == Some(self.next_count(key)),
    {
        let after = self.counted(key);
        let rows = self.entries;
        if self.holds(key) {
            // The rows behind the front one are the old rows without the row of `key`.
            let i = position_of(rows, key);
            let rest = rows.remove(i);
            assert forall|a: int| 0 <= a < rest.len() implies (#[trigger] rest[a]).0 != key by {
                assert(rest[a] == rows[if a < i { a } else { a + 1 }]);
            }
            assert forall|a: int, b: int| 0 <= a < b < rest.len() implies (#[trigger] rest[a]).0
                != (#[trigger] rest[b]).0 by {
                assert(rest[a] == rows[if a < i { a } else { a + 1 }]);
                assert(rest[b] == rows[if b < i { b } else { b + 1 }]);
            }
            assert(distinct_keys(after.entries));
        } else {
            assert(distinct_keys(after.entries));
        }
        after.lemma_row_unique(key, 0);
    }

    /// Recording a request keeps the limiter well formed and leaves the identity in
    /// the front row: with a count of one where the window had run out or the
    /// identity had no row, with its raised count otherwise. A window that had run
    /// out begins anew at the time of the request.
    pub proof fn lemma_record(self, key: IdentityKey, now: nat)
        requires
            self.wf(),
        ensures
            self.record(key, now).wf(),
            self.record(key, now).capacity == self.capacity,
            self.record(key, now).quota == self.quota,
            self.record(key, now).window_start == if self.expired_at(now) {
                now
            } else {
                self.window_start
            },
            self.record(key, now).count_of(key) == Some(
                if self.expired_at(now) {
                    1u16
                } else {
                    self.next_count(key)
                },
            ),
            self.record(key, now).over_limit(key) == (if self.expired_at(now) {
                1u16
            } else {
                self.next_count(key)
            } >= self.quota),
    {
        if self.expired_at(now) {
            self.cleared(now).lemma_counted(key);
        } else {
            self.lemma_counted(key);
        }
    }
}

} // verus!
