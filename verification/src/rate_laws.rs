//! What follows from the model of the rate limiter: when the quota is reached, what
//! the window boundary does to it, and which identity a full table gives up.

use crate::lru_table::IdentityKey;
use crate::rate_window::{position_of, RateWindow, WINDOW_NANOS};
use vstd::prelude::*;

verus! {

/// A request as the limiter sees it: the key of its sender and the time it came.
pub type Arrival = (IdentityKey, nat);

/// Every one of `arrivals` falls into the window that began at `start`.
pub open spec fn within_window(arrivals: Seq<Arrival>, start: nat) -> bool {
    forall|i: int| 0 <= i < arrivals.len() ==> (#[trigger] arrivals[i]).1 - start < WINDOW_NANOS
}

/// Every one of `arrivals` was sent by `key`.
pub open spec fn all_from(arrivals: Seq<Arrival>, key: IdentityKey) -> bool {
    forall|i: int| 0 <= i < arrivals.len() ==> (#[trigger] arrivals[i]).0 == key
}

/// None of `arrivals` was sent by `key`.
pub open spec fn none_from(arrivals: Seq<Arrival>, key: IdentityKey) -> bool {
    forall|i: int| 0 <= i < arrivals.len() ==> (#[trigger] arrivals[i]).0 != key
}

/// No two of `arrivals` were sent by the same identity.
pub open spec fn senders_differ(arrivals: Seq<Arrival>) -> bool {
    forall|i: int, j: int|
        0 <= i < j < arrivals.len() ==> (#[trigger] arrivals[i]).0 != (#[trigger] arrivals[j]).0
}

/// The count an identity has after `requests` more requests within one window,
/// having started with the count `start` or with no row at all.
pub open spec fn count_after(start: Option<u16>, requests: nat) -> u16 {
    let from: nat = match start {
        Some(count) => count as nat,
        None => 0,
    };
    if from + requests <= u16::MAX {
        (from + requests) as u16
    } else {
        u16::MAX
    }
}

impl RateWindow {
    /// The limiter after each of `arrivals` was recorded in turn.
    pub open spec fn record_each(self, arrivals: Seq<Arrival>) -> RateWindow
        decreases arrivals.len(),
    {
        if arrivals.len() == 0 {
            self
        } else {
            self.record_each(arrivals.drop_last()).record(arrivals.last().0, arrivals.last().1)
        }
    }

    /// Requests that fall into the running window leave the window as it is, and
    /// the limiter well formed.
    pub proof fn lemma_window_kept(self, arrivals: Seq<Arrival>)
        requires
            self.wf(),
            within_window(arrivals, self.window_start),
        ensures
            self.record_each(arrivals).wf(),
            self.record_each(arrivals).capacity == self.capacity,
            self.record_each(arrivals).quota == self.quota,
            self.record_each(arrivals).window_start == self.window_start,
        decreases arrivals.len(),
    {
        if arrivals.len() > 0 {
            let head = arrivals.drop_last();
            assert(within_window(head, self.window_start));
            self.lemma_window_kept(head);
            self.record_each(head).lemma_record(arrivals.last().0, arrivals.last().1);
        }
    }

    /// Requests of one identity within one window add up: after the last of them its
    /// count has grown by their number, up to the largest count there is.
    pub proof fn lemma_run_counts(self, key: IdentityKey, arrivals: Seq<Arrival>)
        requires
            self.wf(),
            all_from(arrivals, key),
            within_window(arrivals, self.window_start),
            arrivals.len() >= 1,
        ensures
            self.record_each(arrivals).count_of(key) == Some(
                count_after(self.count_of(key), arrivals.len()),
            ),
        decreases arrivals.len(),
    {
        let head = arrivals.drop_last();
        assert(within_window(head, self.window_start));
        assert(all_from(head, key));
        self.lemma_window_kept(head);
        if head.len() > 0 {
            self.lemma_run_counts(key, head);
        }
        self.record_each(head).lemma_record(key, arrivals.last().1);
    }

    /// Of the requests that an identity without a row sends within one window, the
    /// one that reaches the quota is the first to be over the limit, and every one
    /// after it is too: the last of `arrivals` is over the limit if and only if their
    /// number is at least the quota.
    pub proof fn lemma_limited_from_quota_on(self, key: IdentityKey, arrivals: Seq<Arrival>)
        requires
            self.wf(),
            !self.holds(key),
            all_from(arrivals, key),
            within_window(arrivals, self.window_start),
            arrivals.len() >= 1,
        ensures
            self.record_each(arrivals).over_limit(key) <==> arrivals.len() >= self.quota,
    {
        self.lemma_window_kept(arrivals);
        self.lemma_run_counts(key, arrivals);
    }

    /// A request that comes when the window has run out finds all counters cleared:
    /// it leaves its own row, with a count of one, and no other, and the next window
    /// begins with it.
    pub proof fn lemma_boundary_clears(self, key: IdentityKey, now: nat)
        requires
            self.wf(),
            self.expired_at(now),
        ensures
            self.record(key, now).entries == seq![(key, 1u16)],
            self.record(key, now).window_start == now,
    {
    }

    /// Once the window has run out an identity has its whole quota again, whatever
    /// its count was: of the request at `now`, which begins the next window, and the
    /// `later` ones that follow within it, the last is over the limit if and only if
    /// their number is at least the quota.
    pub proof fn lemma_quota_renewed(self, key: IdentityKey, now: nat, later: Seq<Arrival>)
        requires
            self.wf(),
            self.expired_at(now),
            all_from(later, key),
            within_window(later, now),
        ensures
            self.record(key, now).record_each(later).over_limit(key) <==> 1 + later.len()
                >= self.quota,
    {
        let renewed = self.record(key, now);
        self.lemma_record(key, now);
        renewed.lemma_window_kept(later);
        if later.len() > 0 {
            renewed.lemma_run_counts(key, later);
        }
    }

    /// The window is shared by all and does not slide, so an identity can get close
    /// to twice its quota through in a short time. Let it send the requests `before`
    /// in one window, one request at `now`, when that window has run out, and the
    /// requests `after` in the window that begins then. As long as there are fewer
    /// than the quota on either side of the boundary, none of them is over the limit:
    /// not the `i`-th of `before`, and not the request at `now` with the first `j` of
    /// `after`.
    pub proof fn lemma_burst_across_boundary(
        self,
        key: IdentityKey,
        before: Seq<Arrival>,
        now: nat,
        after: Seq<Arrival>,
        i: int,
        j: int,
    )
        requires
            self.wf(),
            !self.holds(key),
            all_from(before, key),
            all_from(after, key),
            within_window(before, self.window_start),
            self.expired_at(now),
            within_window(after, now),
            before.len() < self.quota,
            1 + after.len() < self.quota,
            1 <= i <= before.len(),
            0 <= j <= after.len(),
        ensures
            !self.record_each(before.take(i)).over_limit(key),
            !self.record_each(before).record(key, now).record_each(after.take(j)).over_limit(key),
    {
        self.lemma_limited_from_quota_on(key, before.take(i));
        self.lemma_window_kept(before);
        self.record_each(before).lemma_quota_renewed(key, now, after.take(j));
    }

    /// The identities seen last fill the table from the front: after one request of
    /// each of `arrivals`, sent within the window by identities that all differ and
    /// are no more than the table holds, the first rows are theirs, the last seen
    /// first.
    pub proof fn lemma_recent_rows(self, arrivals: Seq<Arrival>)
        requires
            self.wf(),
            senders_differ(arrivals),
            within_window(arrivals, self.window_start),
            arrivals.len() <= self.capacity,
        ensures
            self.record_each(arrivals).entries.len() >= arrivals.len(),
            forall|j: int|
                0 <= j < arrivals.len() ==> (#[trigger] self.record_each(arrivals).entries[j]).0
                    == arrivals[arrivals.len() - 1 - j].0,
        decreases arrivals.len(),
    {
        if arrivals.len() > 0 {
            let n = arrivals.len() as int;
            let head = arrivals.drop_last();
            let key = arrivals.last().0;
            let earlier = self.record_each(head);
            assert(within_window(head, self.window_start));
            assert(senders_differ(head));
            self.lemma_window_kept(head);
            self.lemma_recent_rows(head);
            earlier.lemma_counted(key);
            // The sender of the last request is none of the senders before it, so its
            // row, if it has one, lies behind theirs, and theirs all move back by one.
            let rows = earlier.entries;
            assert forall|a: int| 0 <= a < n - 1 implies (#[trigger] rows[a]).0 != key by {
                assert(rows[a].0 == arrivals[n - 2 - a].0);
            }
            assert forall|j: int| 0 < j < n implies (#[trigger] earlier.counted(key).entries[j])
                == rows[j - 1] by {}
        }
    }

    /// A full table gives up the identity seen least recently. Let `seen` send a
    /// request at `now`, and then, within the same window, as many other identities
    /// as the table holds one request each: after that `seen` has no row left, and
    /// each of the others has one.
    pub proof fn lemma_least_recent_evicted(
        self,
        seen: IdentityKey,
        now: nat,
        others: Seq<Arrival>,
    )
        requires
            self.wf(),
            senders_differ(others),
            none_from(others, seen),
            within_window(others, self.record(seen, now).window_start),
            others.len() == self.capacity,
        ensures
            !self.record(seen, now).record_each(others).holds(seen),
            forall|j: int|
                0 <= j < others.len() ==> self.record(seen, now).record_each(others).holds(
                    (#[trigger] others[j]).0,
                ),
    {
        let start = self.record(seen, now);
        self.lemma_record(seen, now);
        start.lemma_window_kept(others);
        start.lemma_recent_rows(others);
        let end = start.record_each(others);
        let n = others.len() as int;
        // The table holds as many rows as there are others, so every row is theirs.
        assert forall|a: int| 0 <= a < end.entries.len() implies (#[trigger] end.entries[a]).0
            != seen by {
            assert(end.entries[a].0 == others[n - 1 - a].0);
        }
        assert forall|j: int| 0 <= j < n implies end.holds((#[trigger] others[j]).0) by {
            assert(end.entries[n - 1 - j].0 == others[j].0);
        }
    }

    /// A row keeps its place in line while identities other than its own are seen
    /// within the window: each request moves it back by one place at most, and it
    /// stays in the table, count unchanged, as long as it has not reached the end.
    pub proof fn lemma_row_moves_back(self, p: int, others: Seq<Arrival>)
        requires
            self.wf(),
            0 <= p < self.entries.len(),
            none_from(others, self.entries[p].0),
            within_window(others, self.window_start),
            p + others.len() < self.capacity,
        ensures
            exists|q: int|
                0 <= q <= p + others.len() && q < self.record_each(others).entries.len()
                    && #[trigger] self.record_each(others).entries[q] == self.entries[p],
        decreases others.len(),
    {
        if others.len() > 0 {
            let head = others.drop_last();
            let key = others.last().0;
            let earlier = self.record_each(head);
            assert(within_window(head, self.window_start));
            assert(none_from(head, self.entries[p].0));
            self.lemma_window_kept(head);
            self.lemma_row_moves_back(p, head);
            earlier.lemma_counted(key);
            let rows = earlier.entries;
            let later = earlier.counted(key);
            assert(later == self.record_each(others));
            // The row stood at `q` before the last request. It stays where it is if
            // the sender's own row was taken from in front of it, and moves back by
            // one otherwise.
            let q = choose|q: int|
                0 <= q <= p + head.len() && q < rows.len() && #[trigger] rows[q] == self.entries[p];
            if earlier.holds(key) && position_of(rows, key) < q {
                assert(later.entries[q] == self.entries[p]);
            } else {
                assert(later.entries[q + 1] == self.entries[p]);
            }
        } else {
            assert(self.record_each(others).entries[p] == self.entries[p]);
        }
    }

    /// An identity that was just seen outlasts fewer new arrivals than the table
    /// holds rows: after requests of less than `capacity` other identities within
    /// the window it still has its row, with the count it had.
    pub proof fn lemma_recent_survives(self, seen: IdentityKey, now: nat, others: Seq<Arrival>)
        requires
            self.wf(),
            none_from(others, seen),
            within_window(others, self.record(seen, now).window_start),
            others.len() < self.capacity,
        ensures
            self.record(seen, now).record_each(others).count_of(seen) == self.record(
                seen,
                now,
            ).count_of(seen),
    {
        let start = self.record(seen, now);
        self.lemma_record(seen, now);
        if self.expired_at(now) {
            self.cleared(now).lemma_counted(seen);
        } else {
            self.lemma_counted(seen);
        }
        start.lemma_window_kept(others);
        start.lemma_row_moves_back(0, others);
        let end = start.record_each(others);
        let q = choose|q: int|
            0 <= q <= others.len() && q < end.entries.len() && #[trigger] end.entries[q]
                == start.entries[0];
        start.lemma_row_unique(seen, 0);
        end.lemma_row_unique(seen, q);
    }
}

} // verus!
