//! The bounded table behind the rate limiter: an `lru::LruCache` from identity keys
//! to request counts, together with the contracts this library relies on.
//!
//! Nothing in this file is proved. Each function below makes one call into the `lru`
//! crate, and its contract records what that call does to the rows of the table.

use lru::LruCache;
use std::num::NonZeroUsize;
use vstd::prelude::*;

verus! {

/// The key under which a caller is stored: the address family (`true` for IPv6)
/// and the address bits.
pub type IdentityKey = (bool, u128);

/// One row of the table: a key and the number of requests counted for it.
pub type Entry = (IdentityKey, u16);

/// The table type.
pub type Table = LruCache<IdentityKey, u16>;

/// `lru::LruCache`, taken as it is. What a table holds is told by [`lru_entries`]
/// and [`lru_capacity`].
#[verifier::external_type_specification]
#[verifier::external_body]
#[verifier::reject_recursive_types(K)]
#[verifier::reject_recursive_types(V)]
#[verifier::reject_recursive_types(S)]
pub struct ExLruCache<K, V, S>(LruCache<K, V, S>);

/// `lru::DefaultHasher`, the hasher a table is made with. Nothing is said of it.
#[verifier::external_type_specification]
#[verifier::external_body]
pub struct ExDefaultHasher(lru::DefaultHasher);

/// The rows a table holds, most recently used first: the order in which
/// `LruCache::iter` walks them.
pub uninterp spec fn lru_entries(table: Table) -> Seq<Entry>;

/// The number of rows a table was made to hold at most: what `LruCache::cap` tells.
pub uninterp spec fn lru_capacity(table: Table) -> nat;

/// The largest capacity a table is made with. The `lru` crate reserves room for
/// `capacity` rows at once; up to this bound the size of that reservation stays
/// below the allocator's limit on every supported pointer width.
pub const MAX_TABLE_ENTRIES: usize = 16_777_216;

/// No row of `rows` has the key `key`.
pub open spec fn row_absent(rows: Seq<Entry>, key: IdentityKey) -> bool {
    forall|i: int| 0 <= i < rows.len() ==> (#[trigger] rows[i]).0 != key
}

/// `rows` after the row at `i` was given the count `count` and moved to the front.
pub open spec fn moved_to_front(rows: Seq<Entry>, i: int, count: u16) -> Seq<Entry> {
    seq![(rows[i].0, count)] + rows.remove(i)
}

/// `rows` after a row for a key they do not hold was put at the front of a table
/// of the given capacity: a full table first loses its last row.
pub open spec fn pushed_front(rows: Seq<Entry>, capacity: nat, row: Entry) -> Seq<Entry> {
    seq![row] + (if rows.len() == capacity {
        rows.drop_last()
    } else {
        rows
    })
}

/// `LruCache::new` with a capacity of `capacity`: an empty table that holds at most
/// `capacity` rows.
#[verifier::external_body]
pub(crate) fn lru_new(capacity: usize) -> (table: Table)
    requires
        0 < capacity <= MAX_TABLE_ENTRIES,
    ensures
        lru_entries(table) == Seq::<Entry>::empty(),
        lru_capacity(table) == capacity,
{
    LruCache::new(NonZeroUsize::new(capacity).unwrap())
}

/// `LruCache::clear`: drops every row and keeps the capacity.
#[verifier::external_body]
pub(crate) fn lru_clear(table: &mut Table)
    ensures
        lru_entries(*final(table)) == Seq::<Entry>::empty(),
        lru_capacity(*final(table)) == lru_capacity(*old(table)),
    no_unwind
{
    table.clear()
}

/// `LruCache::get_mut`: where the key has a row, that row moves to the front and its
/// count is handed out for writing, so the row ends with whatever the caller leaves
/// in it. Where the key has no row, nothing changes.
#[verifier::external_body]
pub(crate) fn lru_get_mut<'a>(table: &'a mut Table, key: &IdentityKey) -> (slot: Option<
    &'a mut u16,
>)
    ensures
        lru_capacity(*final(table)) == lru_capacity(*old(table)),
        match slot {
            Some(count) => exists|i: int|
                0 <= i < lru_entries(*old(table)).len()
                    && #[trigger] lru_entries(*old(table))[i] == (*key, *count)
                    && lru_entries(*final(table)) == moved_to_front(
                    lru_entries(*old(table)),
                    i,
                    *final(count),
                ),
            None => row_absent(lru_entries(*old(table)), *key)
                && lru_entries(*final(table)) == lru_entries(*old(table)),
        },
    no_unwind
{
    table.get_mut(key)
}

/// `LruCache::get`: where the key has a row, that row moves to the front and its
/// count is returned. Where the key has no row, nothing changes.
#[verifier::external_body]
pub(crate) fn lru_get<'a>(table: &'a mut Table, key: &IdentityKey) -> (found: Option<&'a u16>)
    ensures
        lru_capacity(*final(table)) == lru_capacity(*old(table)),
        match found {
            Some(count) => exists|i: int|
                0 <= i < lru_entries(*old(table)).len()
                    && #[trigger] lru_entries(*old(table))[i] == (*key, *count)
                    && lru_entries(*final(table)) == moved_to_front(
                    lru_entries(*old(table)),
                    i,
                    *count,
                ),
            None => row_absent(lru_entries(*old(table)), *key)
                && lru_entries(*final(table)) == lru_entries(*old(table)),
        },
    no_unwind
{
    table.get(key)
}

/// `LruCache::put`: where the key has a row, that row takes the new count, moves to
/// the front, and the count it had is returned. Where the key has no row, a new row
/// goes to the front, after a full table has dropped its least recently used row,
/// and `None` is returned.
#[verifier::external_body]
pub(crate) fn lru_put(table: &mut Table, key: IdentityKey, count: u16) -> (previous: Option<u16>)
    ensures
        lru_capacity(*final(table)) == lru_capacity(*old(table)),
        match previous {
            Some(before) => exists|i: int|
                0 <= i < lru_entries(*old(table)).len()
                    && #[trigger] lru_entries(*old(table))[i] == (key, before)
                    && lru_entries(*final(table)) == moved_to_front(
                    lru_entries(*old(table)),
                    i,
                    count,
                ),
            None => row_absent(lru_entries(*old(table)), key)
                && lru_entries(*final(table)) == pushed_front(
                lru_entries(*old(table)),
                lru_capacity(*old(table)),
                (key, count),
            ),
        },
    no_unwind
{
    table.put(key, count)
}

} // verus!
