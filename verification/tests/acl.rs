use terminate_relay::server::acl::{install_reload, AccessList};

fn list(ids: &[&str]) -> AccessList {
    AccessList::new(ids.iter().map(|id| id.to_string()).collect())
}

#[test]
fn list_holds_what_it_was_made_of() {
    let acl = list(&["alice", "bob"]);
    assert!(acl.contains("alice"));
    assert!(acl.contains("bob"));
    assert!(!acl.contains("eve"));
}

#[test]
fn empty_list_holds_nothing() {
    let acl = list(&[]);
    assert!(!acl.contains("alice"));
    assert!(!acl.contains(""));
}

#[test]
fn membership_is_exact() {
    let acl = list(&["alice"]);
    assert!(!acl.contains("Alice"));
    assert!(!acl.contains("alice "));
    assert!(!acl.contains("alic"));
    assert!(!acl.contains(""));
}

#[test]
fn order_and_repeats_do_not_matter() {
    let one = list(&["alice", "bob", "alice"]);
    let other = list(&["bob", "alice"]);
    for id in ["alice", "bob", "eve"] {
        assert_eq!(one.contains(id), other.contains(id));
    }
}

#[test]
fn replace_swaps_the_whole_list() {
    let mut acl = list(&["alice", "bob"]);
    let previous = acl.replace(vec!["carol".to_string()]);
    assert_eq!(previous, vec!["alice".to_string(), "bob".to_string()]);
    assert!(acl.contains("carol"));
    assert!(!acl.contains("alice"));
    assert!(!acl.contains("bob"));
}

#[test]
fn replace_by_nothing_empties_the_list() {
    let mut acl = list(&["alice"]);
    acl.replace(Vec::new());
    assert!(!acl.contains("alice"));
}

#[test]
fn reader_sees_the_old_list_or_the_new_one() {
    let mut acl = list(&["alice", "bob"]);
    let before: Vec<bool> = ["alice", "bob", "carol"].iter().map(|id| acl.contains(id)).collect();
    assert_eq!(before, vec![true, true, false]);
    acl.replace(vec!["bob".to_string(), "carol".to_string()]);
    let after: Vec<bool> = ["alice", "bob", "carol"].iter().map(|id| acl.contains(id)).collect();
    assert_eq!(after, vec![false, true, true]);
}

#[test]
fn reload_that_was_read_replaces_the_list() {
    let mut acl = list(&["alice", "bob"]);
    assert!(install_reload(&mut acl, Some(vec!["bob".to_string(), "carol".to_string()])));
    assert!(!acl.contains("alice"));
    assert!(acl.contains("bob"));
    assert!(acl.contains("carol"));
}

#[test]
fn reload_that_read_an_empty_list_admits_nobody() {
    let mut acl = list(&["alice"]);
    assert!(install_reload(&mut acl, Some(Vec::new())));
    assert!(!acl.contains("alice"));
}

#[test]
fn reload_that_failed_leaves_the_list_and_the_next_one_still_works() {
    let mut acl = list(&["alice", "bob"]);
    assert!(!install_reload(&mut acl, None));
    assert!(acl.contains("alice"));
    assert!(acl.contains("bob"));
    assert!(!acl.contains("carol"));
    assert!(install_reload(&mut acl, Some(vec!["carol".to_string()])));
    assert!(acl.contains("carol"));
    assert!(!acl.contains("alice"));
}
