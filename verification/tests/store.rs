use event_log::handler::{Database, Event, EventType, ReadError, Sender, StoreError};

fn anonymous() -> Sender {
    Sender { addr: None }
}

fn write_event(key: &str, value: Option<&str>) -> Event {
    Event::new(
        anonymous(),
        EventType::WRITE,
        key.to_string(),
        value.map(|v| v.to_string()),
    )
}

#[test]
fn store_then_read_yields_value() {
    let mut db = Database::new();
    let event = write_event("k", Some("v"));
    assert!(db.store(&event).is_ok());
    assert_eq!(db.read("k".to_string()), Ok(Some("v".to_string())));
}

#[test]
fn store_without_value_fails_and_leaves_mapping() {
    let mut db = Database::new();
    let filled = write_event("k", Some("v"));
    assert!(db.store(&filled).is_ok());
    let empty = write_event("k", None);
    assert_eq!(db.store(&empty), Err(StoreError::NO_VALUE_IN_EVENT));
    assert_eq!(db.read("k".to_string()), Ok(Some("v".to_string())));
    let never_stored = write_event("other", None);
    assert_eq!(db.store(&never_stored), Err(StoreError::NO_VALUE_IN_EVENT));
    assert_eq!(db.read("other".to_string()), Err(ReadError::NO_KEY_FOUND));
}

#[test]
fn read_never_stored_key_fails() {
    let db = Database::new();
    assert_eq!(db.read("missing".to_string()), Err(ReadError::NO_KEY_FOUND));
}

#[test]
fn overwrite_keeps_last_value() {
    let mut db = Database::new();
    assert!(db.store(&write_event("k", Some("first"))).is_ok());
    assert!(db.store(&write_event("k", Some("second"))).is_ok());
    assert_eq!(db.read("k".to_string()), Ok(Some("second".to_string())));
}

#[test]
fn distinct_keys_read_back_independently() {
    let mut db = Database::new();
    assert!(db.store(&write_event("a", Some("1"))).is_ok());
    assert!(db.store(&write_event("b", Some("2"))).is_ok());
    assert_eq!(db.read("a".to_string()), Ok(Some("1".to_string())));
    assert_eq!(db.read("b".to_string()), Ok(Some("2".to_string())));
}

#[test]
fn read_events_do_not_reach_the_mapping() {
    let mut db = Database::new();
    let read_intent = Event::new(anonymous(), EventType::READ, "k".to_string(), None);
    assert_eq!(db.store(&read_intent), Err(StoreError::NO_VALUE_IN_EVENT));
    assert_eq!(db.read("k".to_string()), Err(ReadError::NO_KEY_FOUND));
}

#[test]
fn event_type_labels() {
    assert_eq!(EventType::READ.label(), "READ");
    assert_eq!(EventType::WRITE.label(), "WRITE");
}

#[test]
fn sender_address_is_kept() {
    let sender = Sender {
        addr: Some("127.0.0.1:9000".to_string()),
    };
    let event = Event::new(sender, EventType::WRITE, "k".to_string(), Some("v".to_string()));
    let mut db = Database::new();
    assert!(db.store(&event).is_ok());
    assert_eq!(db.read("k".to_string()), Ok(Some("v".to_string())));
}
