use vstd::prelude::*;

use crate::filter::NotificationFilter;
use crate::notification::NotificationView;
use crate::pending::{is_keyed, same_identity, PendingView};
use crate::reconcile::{
    carried_remember, count_in, items_of, next_state, snapshot_items, NotificationDataView,
};

verus! {

/// Entry times never go down along the list.
pub open spec fn times_sorted(active: Seq<NotificationView>) -> bool {
    forall|i: int, j: int|
        0 <= i < j < active.len() ==> #[trigger] active[i].created_at <= #[trigger] active[j].created_at
}

/// Arrival times never go down along the snapshot.
pub open spec fn arrivals_sorted(entries: Seq<(PendingView, u64)>) -> bool {
    forall|i: int, j: int| 0 <= i < j < entries.len() ==> #[trigger] entries[i].1 <= #[trigger] entries[j].1
}

/// A second pass with an unchanged queue, so an unchanged fingerprint, leaves
/// the state exactly as the first pass left it.
pub proof fn lemma_pass_idempotent(d: NotificationDataView, hash: u64, entries: Seq<(PendingView, u64)>)
    ensures
        next_state(next_state(d, hash, entries), hash, entries) == next_state(d, hash, entries),
{
}

proof fn lemma_carried_from_last_match(prev: Seq<NotificationView>, item: PendingView, j: int)
    requires
        0 <= j < prev.len(),
        same_identity(prev[j].item, item),
        forall|k: int| j < k < prev.len() ==> !same_identity(#[trigger] prev[k].item, item),
    ensures
        carried_remember(prev, item) == prev[j].remember,
    decreases prev.len(),
{
    if j < prev.len() - 1 {
        assert(!same_identity(prev[prev.len() - 1].item, item));
        lemma_carried_from_last_match(prev.drop_last(), item, j);
    }
}

proof fn lemma_unkeyed_not_carried(prev: Seq<NotificationView>, item: PendingView)
    requires
        !is_keyed(item),
    ensures
        !carried_remember(prev, item),
    decreases prev.len(),
{
    if prev.len() > 0 {
        lemma_unkeyed_not_carried(prev.drop_last(), item);
    }
}

/// When the queue changed, every new entry with the identity of a previous
/// entry takes over that entry's `remember` choice, whatever else differs
/// between the two items; `j` is the last previous entry with that identity.
pub proof fn lemma_remember_carried(
    d: NotificationDataView,
    hash: u64,
    entries: Seq<(PendingView, u64)>,
    j: int,
    i: int,
)
    requires
        hash != d.last_pending_hash,
        0 <= j < d.active.len(),
        forall|k: int|
            j < k < d.active.len() ==> !same_identity(#[trigger] d.active[k].item, d.active[j].item),
        0 <= i < entries.len(),
        same_identity(d.active[j].item, entries[i].0),
    ensures
        next_state(d, hash, entries).active[i].item == entries[i].0,
        next_state(d, hash, entries).active[i].remember == d.active[j].remember,
{
    let prev = d.active;
    let item = entries[i].0;
    assert forall|k: int| j < k < prev.len() implies !same_identity(#[trigger] prev[k].item, item) by {
        if same_identity(prev[k].item, item) {
            assert(same_identity(prev[k].item, prev[j].item));
        }
    }
    lemma_carried_from_last_match(prev, item, j);
}

/// When the queue changed, items without an identity, signing requests
/// among them, are each given an entry of their own with `remember` unset,
/// however alike they are.
pub proof fn lemma_unkeyed_fresh(
    d: NotificationDataView,
    hash: u64,
    entries: Seq<(PendingView, u64)>,
    i: int,
)
    requires
        hash != d.last_pending_hash,
        0 <= i < entries.len(),
        !is_keyed(entries[i].0),
    ensures
        next_state(d, hash, entries).active.len() == entries.len(),
        next_state(d, hash, entries).active[i].item == entries[i].0,
        next_state(d, hash, entries).active[i].created_at == entries[i].1,
        !next_state(d, hash, entries).active[i].remember,
{
    lemma_unkeyed_not_carried(d.active, entries[i].0);
}

/// When the queue changed, each category's count is the number of snapshot
/// items in it.
pub proof fn lemma_counts_follow_snapshot(
    d: NotificationDataView,
    hash: u64,
    entries: Seq<(PendingView, u64)>,
    f: NotificationFilter,
)
    requires
        hash != d.last_pending_hash,
    ensures
        count_in(items_of(next_state(d, hash, entries).active), f) == count_in(
            snapshot_items(entries),
            f,
        ),
{
    assert(items_of(next_state(d, hash, entries).active) =~= snapshot_items(entries));
}

/// When the queue changed, the list's times are in order exactly when the
/// snapshot's arrival times are.
pub proof fn lemma_order_kept(d: NotificationDataView, hash: u64, entries: Seq<(PendingView, u64)>)
    requires
        hash != d.last_pending_hash,
    ensures
        times_sorted(next_state(d, hash, entries).active) <==> arrivals_sorted(entries),
{
    let active = next_state(d, hash, entries).active;
    assert(active.len() == entries.len());
    assert forall|i: int| 0 <= i < entries.len() implies #[trigger] active[i].created_at
        == entries[i].1 by {}
    if times_sorted(active) {
        assert forall|i: int, j: int| 0 <= i < j < entries.len() implies #[trigger] entries[i].1
            <= #[trigger] entries[j].1 by {
            assert(active[i].created_at <= active[j].created_at);
        }
    }
    if arrivals_sorted(entries) {
        assert forall|i: int, j: int| 0 <= i < j < active.len() implies #[trigger] active[i].created_at
            <= #[trigger] active[j].created_at by {
            assert(entries[i].1 <= entries[j].1);
        }
    }
}

} // verus!
