use gossip_notifications::{
    get_your_nprofile, Notification, NotificationData, NotificationFilter, PendingItem,
};

fn conn(relay: &str) -> PendingItem {
    PendingItem::RelayConnectionRequest { relay: relay.to_owned(), jobs: vec!["read".to_owned()] }
}

fn auth(account: &str, relay: &str) -> PendingItem {
    PendingItem::RelayAuthenticationRequest { account: account.to_owned(), relay: relay.to_owned() }
}

fn sign(client: &str) -> PendingItem {
    PendingItem::Nip46Request {
        client_name: client.to_owned(),
        account: "npub1".to_owned(),
        command: "sign_event".to_owned(),
    }
}

fn generic(payload: &str) -> PendingItem {
    PendingItem::Generic { payload: payload.to_owned() }
}

fn remembers(d: &NotificationData) -> Vec<bool> {
    (0..d.len()).map(|i| d.get(i).get_remember()).collect()
}

fn times(d: &NotificationData) -> Vec<u64> {
    (0..d.len()).map(|i| d.get(i).timestamp()).collect()
}

#[test]
fn filter_names() {
    assert_eq!(NotificationFilter::All.get_name(), "All");
    assert_eq!(
        NotificationFilter::RelayAuthenticationRequest.get_name(),
        "Relay Authentication Request"
    );
    assert_eq!(NotificationFilter::RelayConnectionRequest.get_name(), "Relay Connection Request");
    assert_eq!(NotificationFilter::Nip46Request.get_name(), "NIP46 Request");
    assert_eq!(NotificationFilter::PendingItem.get_name(), "Pending Items");
    assert!(NotificationFilter::default() == NotificationFilter::All);
}

#[test]
fn new_data_is_empty() {
    let d = NotificationData::new();
    assert_eq!(d.len(), 0);
    assert_eq!(d.count(&NotificationFilter::All), 0);
    assert_eq!(d.num_notif_relays(), 0);
    assert_eq!(d.num_notif_pending(), 0);
    assert!(d.filter() == NotificationFilter::All);
}

#[test]
fn remembered_connection_is_carried_over() {
    let mut d = NotificationData::new();
    d.calc(11, &vec![(conn("wss://a"), 100)]);
    assert_eq!(d.len(), 1);
    assert_eq!(d.count(&NotificationFilter::RelayConnectionRequest), 1);
    assert_eq!(remembers(&d), vec![false]);
    d.set_remember(0, true);
    d.calc(12, &vec![(conn("wss://a"), 140)]);
    assert_eq!(d.len(), 1);
    assert_eq!(d.get(0).timestamp(), 140);
    assert_eq!(remembers(&d), vec![true]);
}

#[test]
fn empty_queue_clears_everything() {
    let mut d = NotificationData::new();
    d.calc(5, &vec![(conn("wss://a"), 1), (sign("app"), 2), (generic("x"), 3)]);
    assert_eq!(d.len(), 3);
    d.calc(6, &Vec::new());
    assert_eq!(d.len(), 0);
    for f in [
        NotificationFilter::All,
        NotificationFilter::RelayAuthenticationRequest,
        NotificationFilter::RelayConnectionRequest,
        NotificationFilter::Nip46Request,
        NotificationFilter::PendingItem,
    ] {
        assert_eq!(d.count(&f), 0);
    }
    assert_eq!(d.num_notif_relays(), 0);
    assert_eq!(d.num_notif_pending(), 0);
}

#[test]
fn unchanged_fingerprint_changes_nothing() {
    let mut d = NotificationData::new();
    let snap = vec![(auth("A", "wss://r"), 10), (conn("wss://b"), 20)];
    d.calc(7, &snap);
    d.set_remember(1, true);
    let before = (times(&d), remembers(&d), d.count(&NotificationFilter::All));
    // same fingerprint: the pass is skipped even though the queue handed in differs
    d.calc(7, &vec![(generic("other"), 99)]);
    assert_eq!((times(&d), remembers(&d), d.count(&NotificationFilter::All)), before);
    d.calc(7, &snap);
    assert_eq!((times(&d), remembers(&d), d.count(&NotificationFilter::All)), before);
}

#[test]
fn authentication_identity_is_account_and_relay() {
    let mut d = NotificationData::new();
    d.calc(1, &vec![(auth("A", "wss://r"), 10)]);
    d.set_remember(0, true);
    d.calc(
        2,
        &vec![
            (auth("A", "wss://r"), 30),
            (auth("B", "wss://r"), 31),
            (auth("A", "wss://s"), 32),
            (conn("wss://r"), 33),
        ],
    );
    assert_eq!(remembers(&d), vec![true, false, false, false]);
}

#[test]
fn connection_identity_ignores_jobs() {
    let mut d = NotificationData::new();
    d.calc(1, &vec![(conn("wss://a"), 10)]);
    d.set_remember(0, true);
    let other_jobs =
        PendingItem::RelayConnectionRequest { relay: "wss://a".to_owned(), jobs: Vec::new() };
    d.calc(2, &vec![(other_jobs, 20)]);
    assert_eq!(remembers(&d), vec![true]);
}

#[test]
fn last_matching_entry_wins() {
    let mut d = NotificationData::new();
    d.calc(1, &vec![(conn("wss://a"), 1), (conn("wss://a"), 2)]);
    d.set_remember(0, true);
    d.calc(2, &vec![(conn("wss://a"), 3)]);
    assert_eq!(remembers(&d), vec![false]);
    d.set_remember(0, true);
    d.calc(3, &vec![(conn("wss://a"), 4), (conn("wss://a"), 5)]);
    assert_eq!(remembers(&d), vec![true, true]);
}

#[test]
fn signing_requests_are_never_merged() {
    let mut d = NotificationData::new();
    d.calc(1, &vec![(sign("app"), 10), (sign("app"), 10)]);
    assert_eq!(d.len(), 2);
    d.set_remember(0, true);
    d.set_remember(1, true);
    d.calc(2, &vec![(sign("app"), 10), (sign("app"), 10)]);
    assert_eq!(d.len(), 2);
    assert_eq!(remembers(&d), vec![false, false]);
    d.set_remember(0, true);
    d.calc(3, &vec![(generic("p"), 11)]);
    assert_eq!(remembers(&d), vec![false]);
}

#[test]
fn counts_follow_the_snapshot() {
    let mut d = NotificationData::new();
    d.calc(
        9,
        &vec![
            (conn("wss://a"), 1),
            (auth("A", "wss://a"), 2),
            (auth("B", "wss://a"), 3),
            (sign("app"), 4),
            (generic("x"), 5),
            (generic("y"), 6),
            (generic("z"), 7),
        ],
    );
    assert_eq!(d.count(&NotificationFilter::All), 7);
    assert_eq!(d.count(&NotificationFilter::RelayConnectionRequest), 1);
    assert_eq!(d.count(&NotificationFilter::RelayAuthenticationRequest), 2);
    assert_eq!(d.count(&NotificationFilter::Nip46Request), 1);
    assert_eq!(d.count(&NotificationFilter::PendingItem), 3);
    assert_eq!(d.num_notif_relays(), 3);
    assert_eq!(d.num_notif_pending(), 4);
}

#[test]
fn order_of_arrival_is_kept() {
    let mut d = NotificationData::new();
    d.calc(1, &vec![(generic("a"), 5), (generic("b"), 7), (generic("c"), 7), (generic("d"), 9)]);
    assert_eq!(times(&d), vec![5, 7, 7, 9]);
    d.calc(2, &vec![(generic("a"), 9), (generic("b"), 3)]);
    assert_eq!(times(&d), vec![9, 3]);
}

#[test]
fn filter_selects_entries() {
    let mut d = NotificationData::new();
    d.calc(1, &vec![(conn("wss://a"), 1), (sign("app"), 2), (conn("wss://b"), 3), (generic("g"), 4)]);
    assert_eq!(d.visible_indices(), vec![0, 1, 2, 3]);
    d.set_filter(NotificationFilter::RelayConnectionRequest);
    assert_eq!(d.visible_indices(), vec![0, 2]);
    d.set_filter(NotificationFilter::Nip46Request);
    assert_eq!(d.visible_indices(), vec![1]);
    d.set_filter(NotificationFilter::RelayAuthenticationRequest);
    assert_eq!(d.visible_indices(), Vec::<usize>::new());
    assert!(d.get(3).matches_filter(&NotificationFilter::PendingItem));
    assert!(d.get(3).matches_filter(&NotificationFilter::All));
    assert!(!d.get(3).matches_filter(&NotificationFilter::Nip46Request));
}

#[test]
fn titles_follow_the_kind() {
    assert_eq!(Notification::new(conn("wss://a"), 0).title(), "Relay Connection Request");
    assert_eq!(Notification::new(auth("A", "wss://a"), 0).title(), "Relay Authentication Request");
    assert_eq!(Notification::new(sign("app"), 0).title(), "NIP46 Request");
    assert_eq!(Notification::new(generic("x"), 0).title(), "Pending Item");
}

#[test]
fn decide_records_remember_and_names_the_item() {
    let mut d = NotificationData::new();
    d.calc(1, &vec![(auth("A", "wss://r"), 10), (conn("wss://c"), 11)]);
    let decision = d.decide(1, true, true);
    assert!(decision.approve);
    assert!(decision.remember);
    assert!(decision.item.same_identity_as(&conn("wss://c")));
    match &decision.item {
        PendingItem::RelayConnectionRequest { relay, jobs } => {
            assert_eq!(relay, "wss://c");
            assert_eq!(jobs, &vec!["read".to_owned()]);
        }
        _ => panic!("wrong item"),
    }
    assert_eq!(remembers(&d), vec![false, true]);
}

#[test]
fn cloned_item_keeps_its_fields() {
    let item = PendingItem::Nip46Request {
        client_name: "c".to_owned(),
        account: "a".to_owned(),
        command: "x".to_owned(),
    };
    match item.clone() {
        PendingItem::Nip46Request { client_name, account, command } => {
            assert_eq!((client_name.as_str(), account.as_str(), command.as_str()), ("c", "a", "x"));
        }
        _ => panic!("wrong kind"),
    }
    assert!(item.category() == NotificationFilter::Nip46Request);
    assert!(!item.same_identity_as(&item.clone()));
}

#[test]
fn nprofile_needs_key_and_relays() {
    let p = get_your_nprofile(Some("pk".to_owned()), Ok(vec!["wss://o".to_owned()])).unwrap();
    assert_eq!(p.pubkey, "pk");
    assert_eq!(p.relays, vec!["wss://o".to_owned()]);
    assert!(get_your_nprofile(None, Ok(vec![])).is_none());
    assert!(get_your_nprofile(Some("pk".to_owned()), Err("db".to_owned())).is_none());
}
