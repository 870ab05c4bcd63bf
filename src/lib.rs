//! Reconciliation of a queue of pending decisions into a stable list of
//! notifications, with per-category counts and carried-over user choices.

mod filter;
mod lemmas;
mod notification;
mod pending;
mod profile;
mod reconcile;

pub use filter::{filter_name, NotificationFilter};
pub use lemmas::{
    arrivals_sorted, lemma_counts_follow_snapshot, lemma_order_kept, lemma_pass_idempotent,
    lemma_remember_carried, lemma_unkeyed_fresh, times_sorted,
};
pub use notification::{title_of, Notification, NotificationView};
pub use pending::{category_of, in_category, is_keyed, same_identity, PendingItem, PendingView};
pub use profile::{get_your_nprofile, Profile};
pub use reconcile::{
    carried_remember, count_in, entries_of, fresh_entry, items_of, lemma_counts_partition,
    next_state, reconciled, snapshot_items, visible, Decision, NotificationData,
    NotificationDataView,
};
