use vstd::prelude::*;

use crate::filter::NotificationFilter;

verus! {

/// Something a worker needs a human decision on before it can go on.
#[derive(Debug, Hash)]
pub enum PendingItem {
    /// A relay wants to be connected to, for the given jobs.
    RelayConnectionRequest { relay: String, jobs: Vec<String> },
    /// A relay asks the given account to authenticate.
    RelayAuthenticationRequest { account: String, relay: String },
    /// A remote client asks for a signature.
    Nip46Request { client_name: String, account: String, command: String },
    /// Any other item that waits on the user.
    Generic { payload: String },
}

/// The mathematical value of a [`PendingItem`].
pub enum PendingView {
    RelayConnectionRequest { relay: Seq<char>, jobs: Seq<Seq<char>> },
    RelayAuthenticationRequest { account: Seq<char>, relay: Seq<char> },
    Nip46Request { client_name: Seq<char>, account: Seq<char>, command: Seq<char> },
    Generic { payload: Seq<char> },
}

impl View for PendingItem {
    type V = PendingView;

    open spec fn view(&self) -> PendingView {
        match self {
            PendingItem::RelayConnectionRequest { relay, jobs } => PendingView::RelayConnectionRequest {
                relay: relay@,
                jobs: jobs@.map_values(|j: String| j@),
            },
            PendingItem::RelayAuthenticationRequest { account, relay } => {
                PendingView::RelayAuthenticationRequest { account: account@, relay: relay@ }
            },
            PendingItem::Nip46Request { client_name, account, command } => PendingView::Nip46Request {
                client_name: client_name@,
                account: account@,
                command: command@,
            },
            PendingItem::Generic { payload } => PendingView::Generic { payload: payload@ },
        }
    }
}

/// The category under which an item is filtered and counted.
pub open spec fn category_of(item: PendingView) -> NotificationFilter {
    match item {
        PendingView::RelayConnectionRequest { .. } => NotificationFilter::RelayConnectionRequest,
        PendingView::RelayAuthenticationRequest { .. } => NotificationFilter::RelayAuthenticationRequest,
        PendingView::Nip46Request { .. } => NotificationFilter::Nip46Request,
        PendingView::Generic { .. } => NotificationFilter::PendingItem,
    }
}

/// Whether an item falls under a filter: `All` takes every item.
pub open spec fn in_category(item: PendingView, f: NotificationFilter) -> bool {
    f == NotificationFilter::All || f == category_of(item)
}

/// Two items stand for the same decision: both are connection requests for
/// one relay, or both are authentication requests of one account to one
/// relay. Other kinds have no identity and never match.
pub open spec fn same_identity(a: PendingView, b: PendingView) -> bool {
    match (a, b) {
        (
            PendingView::RelayConnectionRequest { relay: r1, .. },
            PendingView::RelayConnectionRequest { relay: r2, .. },
        ) => r1 == r2,
        (
            PendingView::RelayAuthenticationRequest { account: a1, relay: r1 },
            PendingView::RelayAuthenticationRequest { account: a2, relay: r2 },
        ) => a1 == a2 && r1 == r2,
        _ => false,
    }
}

/// An item whose kind carries an identity key.
pub open spec fn is_keyed(item: PendingView) -> bool {
    item is RelayConnectionRequest || item is RelayAuthenticationRequest
}

fn clone_strings(v: &Vec<String>) -> (r: Vec<String>)
    ensures
        r@.map_values(|s: String| s@) == v@.map_values(|s: String| s@),
{
    let mut r: Vec<String> = Vec::new();
    let mut i: usize = 0;
    while i < v.len()
        invariant
            i <= v.len(),
            r@.len() == i,
            forall|k: int| 0 <= k < i ==> r@[k]@ == v@[k]@,
        decreases v.len() - i,
    {
        r.push(v[i].clone());
        i = i + 1;
    }
    assert(r@.map_values(|s: String| s@) =~= v@.map_values(|s: String| s@));
    r
}

impl Clone for PendingItem {
    fn clone(&self) -> (r: Self)
        ensures
            r@ == self@,
    {
        match self {
            PendingItem::RelayConnectionRequest { relay, jobs } => PendingItem::RelayConnectionRequest {
                relay: relay.clone(),
                jobs: clone_strings(jobs),
            },
            PendingItem::RelayAuthenticationRequest { account, relay } => {
                PendingItem::RelayAuthenticationRequest {
                    account: account.clone(),
                    relay: relay.clone(),
                }
            },
            PendingItem::Nip46Request { client_name, account, command } => PendingItem::Nip46Request {
                client_name: client_name.clone(),
                account: account.clone(),
                command: command.clone(),
            },
            PendingItem::Generic { payload } => PendingItem::Generic { payload: payload.clone() },
        }
    }
}

impl PendingItem {
    /// The category of this item.
    pub fn category(&self) -> (r: NotificationFilter)
        ensures
            r == category_of(self@),
    {
        match self {
            PendingItem::RelayConnectionRequest { .. } => NotificationFilter::RelayConnectionRequest,
            PendingItem::RelayAuthenticationRequest { .. } => {
                NotificationFilter::RelayAuthenticationRequest
            },
            PendingItem::Nip46Request { .. } => NotificationFilter::Nip46Request,
            PendingItem::Generic { .. } => NotificationFilter::PendingItem,
        }
    }

    /// Whether this item and `other` stand for the same decision.
    pub fn same_identity_as(&self, other: &PendingItem) -> (r: bool)
        ensures
            r == same_identity(self@, other@),
    {
        match self {
            PendingItem::RelayConnectionRequest { relay: r1, .. } => match other {
                PendingItem::RelayConnectionRequest { relay: r2, .. } => r1.eq(r2),
                _ => false,
            },
            PendingItem::RelayAuthenticationRequest { account: a1, relay: r1 } => match other {
                PendingItem::RelayAuthenticationRequest { account: a2, relay: r2 } => {
                    a1.eq(a2) && r1.eq(r2)
                },
                _ => false,
            },
            _ => false,
        }
    }
}

} // verus!
