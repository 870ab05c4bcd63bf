use vstd::prelude::*;

use crate::filter::NotificationFilter;
use crate::notification::{Notification, NotificationView};
use crate::pending::{in_category, same_identity, PendingItem, PendingView};

verus! {

/// The reconciled notification list, the fingerprint of the pending queue it
/// was built from, its per-category counts and the filter the user picked.
pub struct NotificationData {
    active: Vec<Notification>,
    last_pending_hash: u64,
    num_auth: usize,
    num_conn: usize,
    num_nip46: usize,
    num_other: usize,
    filter: NotificationFilter,
}

/// The mathematical value of a [`NotificationData`].
pub struct NotificationDataView {
    pub active: Seq<NotificationView>,
    pub last_pending_hash: u64,
    pub filter: NotificationFilter,
}

impl View for NotificationData {
    type V = NotificationDataView;

    closed spec fn view(&self) -> NotificationDataView {
        NotificationDataView {
            active: self.active@.map_values(|n: Notification| n@),
            last_pending_hash: self.last_pending_hash,
            filter: self.filter,
        }
    }
}

/// A pending queue snapshot as values: each item with its arrival time.
pub open spec fn entries_of(snapshot: Seq<(PendingItem, u64)>) -> Seq<(PendingView, u64)> {
    snapshot.map_values(|e: (PendingItem, u64)| (e.0@, e.1))
}

/// The items of a snapshot, in order.
pub open spec fn snapshot_items(entries: Seq<(PendingView, u64)>) -> Seq<PendingView> {
    entries.map_values(|e: (PendingView, u64)| e.0)
}

/// The items of a notification list, in order.
pub open spec fn items_of(active: Seq<NotificationView>) -> Seq<PendingView> {
    active.map_values(|n: NotificationView| n.item)
}

/// How many of the items fall under the filter.
pub open spec fn count_in(items: Seq<PendingView>, f: NotificationFilter) -> nat
    decreases items.len(),
{
    if items.len() == 0 {
        0
    } else {
        count_in(items.drop_last(), f) + if in_category(items.last(), f) {
            1nat
        } else {
            0nat
        }
    }
}

/// The `remember` choice carried over to a new entry for `item`: that of the
/// last entry of the previous list with the same identity, or `false`.
pub open spec fn carried_remember(prev: Seq<NotificationView>, item: PendingView) -> bool
    decreases prev.len(),
{
    if prev.len() == 0 {
        false
    } else if same_identity(prev.last().item, item) {
        prev.last().remember
    } else {
        carried_remember(prev.drop_last(), item)
    }
}

/// The entry built for one snapshot entry.
pub open spec fn fresh_entry(prev: Seq<NotificationView>, e: (PendingView, u64)) -> NotificationView {
    NotificationView { item: e.0, created_at: e.1, remember: carried_remember(prev, e.0) }
}

/// The list built from a snapshot, one entry per snapshot entry, in order.
pub open spec fn reconciled(prev: Seq<NotificationView>, entries: Seq<(PendingView, u64)>) -> Seq<
    NotificationView,
> {
    Seq::new(entries.len(), |i: int| fresh_entry(prev, entries[i]))
}

/// The state after a reconciliation pass with the given fingerprint and
/// snapshot: unchanged where the fingerprint is the one last seen.
pub open spec fn next_state(
    d: NotificationDataView,
    hash: u64,
    entries: Seq<(PendingView, u64)>,
) -> NotificationDataView {
    if hash == d.last_pending_hash {
        d
    } else {
        NotificationDataView {
            active: reconciled(d.active, entries),
            last_pending_hash: hash,
            filter: d.filter,
        }
    }
}

/// The positions of the entries that fall under the filter, in order.
pub open spec fn visible(active: Seq<NotificationView>, f: NotificationFilter) -> Seq<int>
    decreases active.len(),
{
    if active.len() == 0 {
        Seq::empty()
    } else if in_category(active.last().item, f) {
        visible(active.drop_last(), f).push(active.len() - 1)
    } else {
        visible(active.drop_last(), f)
    }
}

/// What the user decided on an entry, for the worker that waits on it.
#[derive(Debug)]
pub struct Decision {
    pub item: PendingItem,
    pub approve: bool,
    pub remember: bool,
}

proof fn lemma_count_push(items: Seq<PendingView>, x: PendingView, f: NotificationFilter)
    ensures
        count_in(items.push(x), f) == count_in(items, f) + if in_category(x, f) {
            1nat
        } else {
            0nat
        },
{
    assert(items.push(x).drop_last() =~= items);
}

proof fn lemma_count_all(items: Seq<PendingView>)
    ensures
        count_in(items, NotificationFilter::All) == items.len(),
    decreases items.len(),
{
    if items.len() > 0 {
        lemma_count_all(items.drop_last());
    }
}

/// The four categories split every list: their counts add up to its length.
pub proof fn lemma_counts_partition(items: Seq<PendingView>)
    ensures
        count_in(items, NotificationFilter::RelayAuthenticationRequest) + count_in(
            items,
            NotificationFilter::RelayConnectionRequest,
        ) + count_in(items, NotificationFilter::Nip46Request) + count_in(
            items,
            NotificationFilter::PendingItem,
        ) == items.len(),
    decreases items.len(),
{
    if items.len() > 0 {
        lemma_counts_partition(items.drop_last());
    }
}

impl NotificationData {
    /// The counters agree with the list.
    pub closed spec fn wf(&self) -> bool {
        let items = items_of(self@.active);
        &&& self.num_auth == count_in(items, NotificationFilter::RelayAuthenticationRequest)
        &&& self.num_conn == count_in(items, NotificationFilter::RelayConnectionRequest)
        &&& self.num_nip46 == count_in(items, NotificationFilter::Nip46Request)
        &&& self.num_other == count_in(items, NotificationFilter::PendingItem)
    }

    pub fn new() -> (r: Self)
        ensures
            r.wf(),
            r@ == (NotificationDataView {
                active: Seq::empty(),
                last_pending_hash: 0,
                filter: NotificationFilter::All,
            }),
    {
        let r = NotificationData {
            active: Vec::new(),
            last_pending_hash: 0,
            num_auth: 0,
            num_conn: 0,
            num_nip46: 0,
            num_other: 0,
            filter: NotificationFilter::All,
        };
        assert(r@.active =~= Seq::empty());
        r
    }

    /// The `remember` choice that a new entry for `item` takes over from the
    /// current list.
    fn remembered_for(&self, item: &PendingItem) -> (r: bool)
        ensures
            r == carried_remember(self@.active, item@),
    {
        let ghost prev = self@.active;
        let mut remember = false;
        let mut j: usize = 0;
        while j < self.active.len()
            invariant
                j <= self.active.len(),
                prev == self@.active,
                remember == carried_remember(prev.take(j as int), item@),
            decreases self.active.len() - j,
        {
            let old_entry = &self.active[j];
            assert(prev.take(j + 1).drop_last() =~= prev.take(j as int));
            if old_entry.item().same_identity_as(item) {
                remember = old_entry.get_remember();
            }
            j = j + 1;
        }
        assert(prev.take(self.active.len() as int) =~= prev);
        remember
    }

    /// One reconciliation pass. Where `hash`, the pending queue's fingerprint,
    /// is the one recorded by the last pass, nothing changes. Otherwise the
    /// list is rebuilt from `snapshot`, in its order, one entry per item; an
    /// entry whose item has an identity takes over the `remember` choice of
    /// the last previous entry with the same identity; the counts are
    /// recomputed and `hash` is recorded.
    pub fn calc(&mut self, hash: u64, snapshot: &Vec<(PendingItem, u64)>)
        requires
            old(self).wf(),
        ensures
            final(self).wf(),
            final(self)@ == next_state(old(self)@, hash, entries_of(snapshot@)),
            hash == old(self)@.last_pending_hash ==> *final(self) == *old(self),
    {
        if self.last_pending_hash == hash {
            return;
        }
        let ghost prev = self@.active;
        let ghost entries = entries_of(snapshot@);
        let mut num_auth: usize = 0;
        let mut num_conn: usize = 0;
        let mut num_nip46: usize = 0;
        let mut num_other: usize = 0;
        let mut new_active: Vec<Notification> = Vec::new();
        let mut i: usize = 0;
        while i < snapshot.len()
            invariant
                i <= snapshot.len(),
                prev == self@.active,
                entries == entries_of(snapshot@),
                new_active@.len() == i,
                forall|k: int| 0 <= k < i ==> #[trigger] new_active@[k]@ == fresh_entry(prev, entries[k]),
                num_auth <= i,
                num_conn <= i,
                num_nip46 <= i,
                num_other <= i,
                num_auth == count_in(
                    snapshot_items(entries.take(i as int)),
                    NotificationFilter::RelayAuthenticationRequest,
                ),
                num_conn == count_in(
                    snapshot_items(entries.take(i as int)),
                    NotificationFilter::RelayConnectionRequest,
                ),
                num_nip46 == count_in(
                    snapshot_items(entries.take(i as int)),
                    NotificationFilter::Nip46Request,
                ),
                num_other == count_in(
                    snapshot_items(entries.take(i as int)),
                    NotificationFilter::PendingItem,
                ),
            decreases snapshot.len() - i,
        {
            let item = &snapshot[i].0;
            let time = snapshot[i].1;
            proof {
                let items = snapshot_items(entries.take(i as int));
                assert(snapshot_items(entries.take(i + 1)) =~= items.push(item@));
                lemma_count_push(items, item@, NotificationFilter::RelayAuthenticationRequest);
                lemma_count_push(items, item@, NotificationFilter::RelayConnectionRequest);
                lemma_count_push(items, item@, NotificationFilter::Nip46Request);
                lemma_count_push(items, item@, NotificationFilter::PendingItem);
            }
            match item.category() {
                NotificationFilter::RelayAuthenticationRequest => num_auth = num_auth + 1,
                NotificationFilter::RelayConnectionRequest => num_conn = num_conn + 1,
                NotificationFilter::Nip46Request => num_nip46 = num_nip46 + 1,
                _ => num_other = num_other + 1,
            }
            let remember = self.remembered_for(item);
            let mut entry = Notification::new(item.clone(), time);
            entry.set_remember(remember);
            new_active.push(entry);
            i = i + 1;
        }
        self.active = new_active;
        self.last_pending_hash = hash;
        self.num_auth = num_auth;
        self.num_conn = num_conn;
        self.num_nip46 = num_nip46;
        self.num_other = num_other;
        assert(self@.active =~= reconciled(prev, entries));
        assert(entries.take(snapshot.len() as int) =~= entries);
        assert(items_of(self@.active) =~= snapshot_items(entries));
    }

    /// How many entries of the list fall under the filter.
    pub fn count(&self, filter: &NotificationFilter) -> (r: usize)
        requires
            self.wf(),
        ensures
            r == count_in(items_of(self@.active), *filter),
    {
        proof {
            lemma_count_all(items_of(self@.active));
        }
        match filter {
            NotificationFilter::All => self.active.len(),
            NotificationFilter::RelayAuthenticationRequest => self.num_auth,
            NotificationFilter::RelayConnectionRequest => self.num_conn,
            NotificationFilter::Nip46Request => self.num_nip46,
            NotificationFilter::PendingItem => self.num_other,
        }
    }

    /// Entries about relays: connection and authentication requests.
    pub fn num_notif_relays(&self) -> (r: usize)
        requires
            self.wf(),
        ensures
            r == count_in(items_of(self@.active), NotificationFilter::RelayAuthenticationRequest)
                + count_in(items_of(self@.active), NotificationFilter::RelayConnectionRequest),
    {
        let n = self.active.len();
        proof {
            lemma_counts_partition(items_of(self@.active));
            assert(items_of(self@.active).len() == n);
        }
        self.num_auth + self.num_conn
    }

    /// Entries about anything else: signing requests and other items.
    pub fn num_notif_pending(&self) -> (r: usize)
        requires
            self.wf(),
        ensures
            r == count_in(items_of(self@.active), NotificationFilter::Nip46Request)
                + count_in(items_of(self@.active), NotificationFilter::PendingItem),
    {
        let n = self.active.len();
        proof {
            lemma_counts_partition(items_of(self@.active));
            assert(items_of(self@.active).len() == n);
        }
        self.num_nip46 + self.num_other
    }

    pub fn len(&self) -> (r: usize)
        ensures
            r == self@.active.len(),
    {
        self.active.len()
    }

    pub fn get(&self, index: usize) -> (r: &Notification)
        requires
            index < self@.active.len(),
        ensures
            r@ == self@.active[index as int],
    {
        &self.active[index]
    }

    pub fn filter(&self) -> (r: NotificationFilter)
        ensures
            r == self@.filter,
    {
        self.filter
    }

    pub fn set_filter(&mut self, filter: NotificationFilter)
        requires
            old(self).wf(),
        ensures
            final(self).wf(),
            final(self)@ == (NotificationDataView { filter, ..old(self)@ }),
    {
        self.filter = filter;
    }

    /// The positions of the entries that the current filter lets through, in
    /// list order.
    pub fn visible_indices(&self) -> (r: Vec<usize>)
        ensures
            r@.map_values(|k: usize| k as int) == visible(self@.active, self@.filter),
    {
        let ghost active = self@.active;
        let mut r: Vec<usize> = Vec::new();
        let mut i: usize = 0;
        while i < self.active.len()
            invariant
                i <= self.active.len(),
                active == self@.active,
                r@.map_values(|k: usize| k as int) == visible(active.take(i as int), self@.filter),
            decreases self.active.len() - i,
        {
            assert(active.take(i + 1).drop_last() =~= active.take(i as int));
            let ghost before = r@;
            if self.active[i].matches_filter(&self.filter) {
                r.push(i);
                assert(r@.map_values(|k: usize| k as int) =~= before.map_values(|k: usize| k as int).push(i as int));
            }
            i = i + 1;
        }
        assert(active.take(self.active.len() as int) =~= active);
        r
    }

    /// Sets the `remember` choice of one entry.
    pub fn set_remember(&mut self, index: usize, value: bool)
        requires
            old(self).wf(),
            index < old(self)@.active.len(),
        ensures
            final(self).wf(),
            final(self)@ == (NotificationDataView {
                active: old(self)@.active.update(
                    index as int,
                    NotificationView { remember: value, ..old(self)@.active[index as int] },
                ),
                ..old(self)@
            }),
    {
        let ghost before = self@.active;
        self.active[index].set_remember(value);
        assert(self@.active =~= before.update(
            index as int,
            NotificationView { remember: value, ..before[index as int] },
        ));
        assert(items_of(self@.active) =~= items_of(before));
    }

    /// Records the user's choice on one entry and hands back the decision to
    /// forward to the worker that raised the item.
    pub fn decide(&mut self, index: usize, approve: bool, remember: bool) -> (r: Decision)
        requires
            old(self).wf(),
            index < old(self)@.active.len(),
        ensures
            final(self).wf(),
            final(self)@ == (NotificationDataView {
                active: old(self)@.active.update(
                    index as int,
                    NotificationView { remember, ..old(self)@.active[index as int] },
                ),
                ..old(self)@
            }),
            r.item@ == old(self)@.active[index as int].item,
            r.approve == approve,
            r.remember == remember,
    {
        let item = self.active[index].item().clone();
        self.set_remember(index, remember);
        Decision { item, approve, remember }
    }
}

} // verus!
