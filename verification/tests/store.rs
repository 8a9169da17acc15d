//! The credential store: lookups, pending tokens, overwrites, snapshots.
use teleport::auth::TwitterTokenPair;
use teleport::db::{InMemoryDB, User};

fn user(id: &str, name: &str) -> User {
    User {
        x_id: id.to_string(),
        username: name.to_string(),
        token_pair: TwitterTokenPair {
            token: format!("tok-{}", id),
            secret: format!("sec-{}", id),
        },
    }
}

#[test]
fn fresh_store_links_nothing() {
    let db = InMemoryDB::default();
    assert!(db.get_linked(&"100".to_string()).is_none());
    assert!(db.get_linked(&"".to_string()).is_none());
}

#[test]
fn linked_account_visible_after_put() {
    let mut db = InMemoryDB::default();
    db.put_linked("100".to_string(), user("7", "alice"));
    let got = db.get_linked(&"100".to_string()).expect("account must be linked");
    assert_eq!(got.x_id, "7");
    assert_eq!(got.username, "alice");
    assert_eq!(got.token_pair.token, "tok-7");
    assert!(db.get_linked(&"200".to_string()).is_none());
}

#[test]
fn reauthorization_overwrites() {
    let mut db = InMemoryDB::default();
    db.put_linked("100".to_string(), user("7", "alice"));
    db.put_linked("100".to_string(), user("8", "bob"));
    let got = db.get_linked(&"100".to_string()).expect("account must be linked");
    assert_eq!(got.x_id, "8");
    assert_eq!(got.username, "bob");
    assert_eq!(got.token_pair.secret, "sec-8");
}

#[test]
fn take_pending_returns_value_exactly_once() {
    let mut db = InMemoryDB::default();
    db.put_pending("reqtok".to_string(), "reqsec".to_string());
    assert_eq!(db.take_pending(&"reqtok".to_string()), Some("reqsec".to_string()));
    assert_eq!(db.take_pending(&"reqtok".to_string()), None);
}

#[test]
fn take_pending_unknown_token_is_none() {
    let mut db = InMemoryDB::default();
    assert_eq!(db.take_pending(&"nope".to_string()), None);
}

#[test]
fn put_pending_overwrites_same_token() {
    let mut db = InMemoryDB::default();
    db.put_pending("t".to_string(), "one".to_string());
    db.put_pending("t".to_string(), "two".to_string());
    assert_eq!(db.take_pending(&"t".to_string()), Some("two".to_string()));
    assert_eq!(db.take_pending(&"t".to_string()), None);
}

#[test]
fn remove_linked_forgets_the_account() {
    let mut db = InMemoryDB::default();
    db.put_linked("100".to_string(), user("7", "alice"));
    let removed = db.remove_linked(&"100".to_string());
    assert_eq!(removed.map(|u| u.username), Some("alice".to_string()));
    assert!(db.get_linked(&"100".to_string()).is_none());
    assert!(db.remove_linked(&"100".to_string()).is_none());
}

#[test]
fn load_or_create_without_snapshot_is_empty() {
    let db = InMemoryDB::load_or_create(None);
    assert!(db.get_linked(&"100".to_string()).is_none());
}

#[test]
fn load_or_create_rebuilds_tables() {
    let pending = vec![("t1".to_string(), "s1".to_string()), ("t2".to_string(), "s2".to_string())];
    let linked = vec![("100".to_string(), user("7", "alice"))];
    let mut db = InMemoryDB::load_or_create(Some((pending, linked)));
    assert_eq!(db.get_linked(&"100".to_string()).unwrap().username, "alice");
    assert_eq!(db.take_pending(&"t2".to_string()), Some("s2".to_string()));
    assert_eq!(db.take_pending(&"t1".to_string()), Some("s1".to_string()));
}

#[test]
fn load_or_create_last_entry_wins_on_duplicate_keys() {
    let pending = vec![("t".to_string(), "old".to_string()), ("t".to_string(), "new".to_string())];
    let mut db = InMemoryDB::load_or_create(Some((pending, Vec::new())));
    assert_eq!(db.take_pending(&"t".to_string()), Some("new".to_string()));
}

#[test]
fn snapshot_round_trips_through_load() {
    let mut db = InMemoryDB::default();
    db.put_pending("t1".to_string(), "s1".to_string());
    db.put_linked("100".to_string(), user("7", "alice"));
    db.put_linked("200".to_string(), user("8", "bob"));
    let (pending, linked) = db.snapshot();
    let restored = InMemoryDB::load_or_create(Some((pending, linked)));
    assert_eq!(restored.get_linked(&"100".to_string()).unwrap().username, "alice");
    assert_eq!(restored.get_linked(&"200".to_string()).unwrap().username, "bob");
}
