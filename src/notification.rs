use vstd::prelude::*;

use crate::filter::NotificationFilter;
use crate::pending::{category_of, in_category, PendingItem, PendingView};

verus! {

/// One entry of the reconciled list: a pending item, when it arrived, and
/// whether the user wants the decision on it remembered.
pub struct Notification {
    item: PendingItem,
    created_at: u64,
    remember: bool,
}

/// The mathematical value of a [`Notification`].
pub struct NotificationView {
    pub item: PendingView,
    pub created_at: u64,
    pub remember: bool,
}

impl View for Notification {
    type V = NotificationView;

    closed spec fn view(&self) -> NotificationView {
        NotificationView { item: self.item@, created_at: self.created_at, remember: self.remember }
    }
}

/// The heading shown for an entry of the given item.
pub open spec fn title_of(item: PendingView) -> Seq<char> {
    match item {
        PendingView::RelayConnectionRequest { .. } => "Relay Connection Request"@,
        PendingView::RelayAuthenticationRequest { .. } => "Relay Authentication Request"@,
        PendingView::Nip46Request { .. } => "NIP46 Request"@,
        PendingView::Generic { .. } => "Pending Item"@,
    }
}

impl Notification {
    /// A fresh entry, with `remember` unset.
    pub fn new(item: PendingItem, created_at: u64) -> (r: Notification)
        ensures
            r@ == (NotificationView { item: item@, created_at, remember: false }),
    {
        Notification { item, created_at, remember: false }
    }

    pub fn timestamp(&self) -> (r: u64)
        ensures
            r == self@.created_at,
    {
        self.created_at
    }

    pub fn title(&self) -> (r: String)
        ensures
            r@ == title_of(self@.item),
    {
        match &self.item {
            PendingItem::RelayConnectionRequest { .. } => "Relay Connection Request".to_owned(),
            PendingItem::RelayAuthenticationRequest { .. } => {
                "Relay Authentication Request".to_owned()
            },
            PendingItem::Nip46Request { .. } => "NIP46 Request".to_owned(),
            PendingItem::Generic { .. } => "Pending Item".to_owned(),
        }
    }

    pub fn matches_filter(&self, filter: &NotificationFilter) -> (r: bool)
        ensures
            r == in_category(self@.item, *filter),
    {
        match filter {
            NotificationFilter::All => true,
            _ => self.item.category() == *filter,
        }
    }

    pub fn item(&self) -> (r: &PendingItem)
        ensures
            r@ == self@.item,
    {
        &self.item
    }

    pub fn get_remember(&self) -> (r: bool)
        ensures
            r == self@.remember,
    {
        self.remember
    }

    pub fn set_remember(&mut self, value: bool)
        ensures
            final(self)@ == (NotificationView { remember: value, ..old(self)@ }),
    {
        self.remember = value;
    }
}

} // verus!
