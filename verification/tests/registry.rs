use wmcore::client::Client;
use wmcore::client::ClientList;
use wmcore::client::Tag;

fn client(window: u32, tags: Vec<Tag>) -> Client {
    Client::new(window, Some(0), tags).expect("a present type property yields a client")
}

#[test]
fn adoption_fails_without_type_property() {
    let c = Client::new(1, None, vec![Tag::Foo]);
    assert!(c.is_none());
}

#[test]
fn adoption_keeps_window_type_and_tags() {
    let c = Client::new(7, Some(42), vec![Tag::Foo, Tag::Bar]).unwrap();
    assert_eq!(c.window, 7);
    assert!(!c.urgent);
    assert_eq!(c.w_type, 42);
    assert_eq!(c.tags, vec![Tag::Foo, Tag::Bar]);
}

#[test]
fn registry_never_holds_duplicate_windows() {
    let mut list = ClientList::new();
    list.add(client(1, vec![Tag::Foo]));
    list.add(client(1, vec![Tag::Bar]));
    assert_eq!(list.len(), 1);
    // the first record wins; the duplicate is ignored
    assert_eq!(list.get_client_by_window(1).unwrap().tags, vec![Tag::Foo]);
    list.add(client(2, vec![Tag::Foo]));
    assert_eq!(list.len(), 2);
    list.remove(1);
    list.add(client(1, vec![Tag::Bar]));
    assert_eq!(list.len(), 2);
    assert_eq!(list.get_client_by_window(1).unwrap().tags, vec![Tag::Bar]);
}

#[test]
fn find_by_tags_returns_intersecting_clients_in_insertion_order() {
    let mut list = ClientList::new();
    list.add(client(1, vec![Tag::Foo]));
    list.add(client(2, vec![Tag::Foo, Tag::Bar]));
    list.add(client(3, vec![Tag::Bar]));

    let foo: Vec<u32> = list.match_clients_by_tags(&[Tag::Foo]).iter().map(|c| c.window).collect();
    assert_eq!(foo, vec![1, 2]);

    let bar: Vec<u32> = list.match_clients_by_tags(&[Tag::Bar]).iter().map(|c| c.window).collect();
    assert_eq!(bar, vec![2, 3]);

    let both: Vec<u32> =
        list.match_clients_by_tags(&[Tag::Foo, Tag::Bar]).iter().map(|c| c.window).collect();
    assert_eq!(both, vec![1, 2, 3]);

    let none: Vec<u32> = list.match_clients_by_tags(&[]).iter().map(|c| c.window).collect();
    assert_eq!(none, Vec::<u32>::new());
}

#[test]
fn get_client_by_window_finds_the_owner() {
    let mut list = ClientList::new();
    list.add(client(10, vec![Tag::Foo]));
    list.add(client(11, vec![Tag::Bar]));
    assert_eq!(list.get_client_by_window(11).unwrap().window, 11);
    assert!(list.get_client_by_window(12).is_none());
}

#[test]
fn removing_an_absent_window_changes_nothing() {
    let mut list = ClientList::new();
    list.add(client(1, vec![Tag::Foo]));
    list.add(client(2, vec![Tag::Bar]));
    list.remove(3);
    assert_eq!(list.len(), 2);
    assert!(list.get_client_by_window(1).is_some());
    assert!(list.get_client_by_window(2).is_some());
}

#[test]
fn removing_a_present_window_evicts_only_it() {
    let mut list = ClientList::new();
    list.add(client(1, vec![Tag::Foo]));
    list.add(client(2, vec![Tag::Bar]));
    list.remove(1);
    assert_eq!(list.len(), 1);
    assert!(list.get_client_by_window(1).is_none());
    assert!(list.get_client_by_window(2).is_some());
}

#[test]
fn has_tags_checks_intersection() {
    let c = client(1, vec![Tag::Foo]);
    assert!(c.has_tags(&[Tag::Foo, Tag::Bar]));
    assert!(!c.has_tags(&[Tag::Bar]));
    assert!(!c.has_tags(&[]));
}

#[test]
fn set_tags_replaces_membership_wholesale() {
    let mut c = client(1, vec![Tag::Foo]);
    c.set_tags(&[Tag::Bar]);
    assert_eq!(c.tags, vec![Tag::Bar]);
    assert_eq!(c.window, 1);
}

#[test]
fn toggle_tag_is_reserved_and_leaves_the_client_alone() {
    let mut c = client(1, vec![Tag::Foo]);
    c.toggle_tag(Tag::Bar);
    assert_eq!(c.tags, vec![Tag::Foo]);
}
