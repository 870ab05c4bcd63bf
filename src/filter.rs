use vstd::prelude::*;

verus! {

/// The categories by which the notification list can be narrowed.
#[derive(PartialEq, Eq, Structural, Clone, Copy, Debug)]
pub enum NotificationFilter {
    All,
    RelayAuthenticationRequest,
    RelayConnectionRequest,
    Nip46Request,
    PendingItem,
}

/// The label shown for a filter.
pub open spec fn filter_name(f: NotificationFilter) -> Seq<char> {
    match f {
        NotificationFilter::All => "All"@,
        NotificationFilter::RelayAuthenticationRequest => "Relay Authentication Request"@,
        NotificationFilter::RelayConnectionRequest => "Relay Connection Request"@,
        NotificationFilter::Nip46Request => "NIP46 Request"@,
        NotificationFilter::PendingItem => "Pending Items"@,
    }
}

impl NotificationFilter {
    pub fn get_name(&self) -> (r: String)
        ensures
            r@ == filter_name(*self),
    {
        match self {
            NotificationFilter::All => "All".to_owned(),
            NotificationFilter::RelayAuthenticationRequest => {
                "Relay Authentication Request".to_owned()
            },
            NotificationFilter::RelayConnectionRequest => "Relay Connection Request".to_owned(),
            NotificationFilter::Nip46Request => "NIP46 Request".to_owned(),
            NotificationFilter::PendingItem => "Pending Items".to_owned(),
        }
    }
}

impl Default for NotificationFilter {
    fn default() -> (r: Self)
        ensures
            r == NotificationFilter::All,
    {
        NotificationFilter::All
    }
}

} // verus!
