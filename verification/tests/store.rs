use url_shortener::link::Link;
use url_shortener::store::{LinkStore, StoreError};

fn link(code: &str, destination: &str, expires_at: Option<i64>) -> Link {
    Link { code: code.to_string(), destination: destination.to_string(), expires_at }
}

fn put(store: &mut LinkStore, code: &str, destination: &str, expires_at: Option<i64>) -> Result<(), StoreError> {
    store.insert(code.to_string(), destination.to_string(), expires_at)
}

#[test]
fn new_store_is_empty() {
    let store = LinkStore::new();
    assert_eq!(store.len(), 0);
    assert_eq!(store.lookup("abc123"), None);
}

#[test]
fn insert_then_lookup_returns_the_row() {
    let mut store = LinkStore::new();
    assert_eq!(put(&mut store, "abc123", "https://example.com", Some(500)), Ok(()));
    assert_eq!(store.len(), 1);
    assert_eq!(store.lookup("abc123"), Some(link("abc123", "https://example.com", Some(500))));
}

#[test]
fn lookup_of_another_code_finds_nothing() {
    let mut store = LinkStore::new();
    put(&mut store, "abc123", "https://example.com", None).unwrap();
    assert_eq!(store.lookup("abc124"), None);
    assert_eq!(store.lookup("ABC123"), None);
    assert_eq!(store.lookup(""), None);
}

#[test]
fn insert_of_a_taken_code_is_refused_and_keeps_the_first_row() {
    let mut store = LinkStore::new();
    assert_eq!(put(&mut store, "abc123", "https://first.example", Some(500)), Ok(()));
    assert_eq!(
        put(&mut store, "abc123", "https://second.example", None),
        Err(StoreError::DuplicateCode)
    );
    assert_eq!(store.len(), 1);
    assert_eq!(store.lookup("abc123"), Some(link("abc123", "https://first.example", Some(500))));
}

#[test]
fn an_expired_row_still_blocks_its_code() {
    let mut store = LinkStore::new();
    put(&mut store, "abc123", "https://old.example", Some(0)).unwrap();
    assert_eq!(
        put(&mut store, "abc123", "https://new.example", Some(i64::MAX)),
        Err(StoreError::DuplicateCode)
    );
    assert_eq!(store.lookup("abc123"), Some(link("abc123", "https://old.example", Some(0))));
}

#[test]
fn lookup_returns_rows_without_expiry() {
    let mut store = LinkStore::new();
    put(&mut store, "zzzzzz", "https://example.org/forever", None).unwrap();
    assert_eq!(store.lookup("zzzzzz"), Some(link("zzzzzz", "https://example.org/forever", None)));
}

#[test]
fn many_codes_live_side_by_side() {
    let mut store = LinkStore::new();
    for i in 0..100 {
        let code = format!("c{:05}", i);
        assert_eq!(put(&mut store, &code, &format!("https://example.com/{}", i), Some(i)), Ok(()));
    }
    assert_eq!(store.len(), 100);
    for i in 0..100 {
        let code = format!("c{:05}", i);
        assert_eq!(
            store.lookup(&code),
            Some(link(&code, &format!("https://example.com/{}", i), Some(i)))
        );
    }
}

#[test]
fn delete_expired_on_an_empty_store_removes_nothing() {
    let mut store = LinkStore::new();
    assert_eq!(store.delete_expired(1_000), 0);
    assert_eq!(store.len(), 0);
}

#[test]
fn delete_expired_removes_exactly_the_expired_rows() {
    let mut store = LinkStore::new();
    put(&mut store, "past00", "https://a.example", Some(999)).unwrap();
    put(&mut store, "now000", "https://b.example", Some(1_000)).unwrap();
    put(&mut store, "soon00", "https://c.example", Some(1_001)).unwrap();
    put(&mut store, "never0", "https://d.example", None).unwrap();
    put(&mut store, "negat0", "https://e.example", Some(-5)).unwrap();
    assert_eq!(store.delete_expired(1_000), 3);
    assert_eq!(store.len(), 2);
    assert_eq!(store.lookup("past00"), None);
    assert_eq!(store.lookup("now000"), None);
    assert_eq!(store.lookup("negat0"), None);
    assert_eq!(store.lookup("soon00"), Some(link("soon00", "https://c.example", Some(1_001))));
    assert_eq!(store.lookup("never0"), Some(link("never0", "https://d.example", None)));
}

#[test]
fn delete_expired_twice_removes_nothing_the_second_time() {
    let mut store = LinkStore::new();
    put(&mut store, "aaaaaa", "https://a.example", Some(10)).unwrap();
    put(&mut store, "bbbbbb", "https://b.example", Some(20)).unwrap();
    put(&mut store, "cccccc", "https://c.example", Some(30)).unwrap();
    assert_eq!(store.delete_expired(20), 2);
    assert_eq!(store.delete_expired(20), 0);
    assert_eq!(store.len(), 1);
    assert_eq!(store.lookup("cccccc"), Some(link("cccccc", "https://c.example", Some(30))));
}

#[test]
fn delete_expired_can_empty_the_store() {
    let mut store = LinkStore::new();
    for i in 0..10 {
        put(&mut store, &format!("row{:03}", i), "https://example.com", Some(i)).unwrap();
    }
    assert_eq!(store.delete_expired(9), 10);
    assert_eq!(store.len(), 0);
}

#[test]
fn delete_expired_at_the_earliest_instant_keeps_later_rows() {
    let mut store = LinkStore::new();
    put(&mut store, "aaaaaa", "https://a.example", Some(i64::MIN)).unwrap();
    put(&mut store, "bbbbbb", "https://b.example", Some(i64::MIN + 1)).unwrap();
    assert_eq!(store.delete_expired(i64::MIN), 1);
    assert_eq!(store.lookup("aaaaaa"), None);
    assert_eq!(store.lookup("bbbbbb"), Some(link("bbbbbb", "https://b.example", Some(i64::MIN + 1))));
}

#[test]
fn a_reclaimed_code_can_be_used_again() {
    let mut store = LinkStore::new();
    put(&mut store, "abc123", "https://old.example", Some(5)).unwrap();
    assert_eq!(store.delete_expired(5), 1);
    assert_eq!(put(&mut store, "abc123", "https://new.example", Some(50)), Ok(()));
    assert_eq!(store.lookup("abc123"), Some(link("abc123", "https://new.example", Some(50))));
}

#[test]
fn link_expiry_boundary() {
    let l = link("abc123", "https://example.com", Some(100));
    assert!(!l.is_expired(99));
    assert!(l.is_expired(100));
    assert!(l.is_expired(101));
    assert!(!link("abc123", "https://example.com", None).is_expired(i64::MAX));
    assert!(link("abc123", "https://example.com", Some(i64::MIN)).is_expired(i64::MIN));
}
