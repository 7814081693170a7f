use rtvbp::registry::{HandlerTable, Registry};

#[test]
fn table_registers_and_replaces() {
    let mut t: HandlerTable<u32> = HandlerTable::new();
    assert_eq!(t.len(), 0);
    assert!(!t.contains("a"));
    assert_eq!(t.lookup("a"), None);
    assert_eq!(t.register("a".to_string(), 1), None);
    assert_eq!(t.register("b".to_string(), 2), None);
    assert_eq!(t.lookup("a"), Some(&1));
    assert_eq!(t.lookup("b"), Some(&2));
    assert_eq!(t.register("a".to_string(), 3), Some(1));
    assert_eq!(t.lookup("a"), Some(&3));
    assert_eq!(t.lookup("b"), Some(&2));
    assert_eq!(t.len(), 2);
    assert!(t.contains("b"));
    assert!(!t.contains("c"));
}

#[test]
fn registry_keeps_categories_apart() {
    let mut r: Registry<&'static str> = Registry::new();
    assert!(r.open.is_none());
    assert!(r.binary.is_none());
    r.with_open_handler("open");
    r.register_data_handler("data");
    r.register_request_handler("ping".to_string(), "ping-handler");
    r.register_event_handler("log".to_string(), "log-handler");
    assert_eq!(r.open, Some("open"));
    assert_eq!(r.binary, Some("data"));
    assert_eq!(r.requests.lookup("ping"), Some(&"ping-handler"));
    assert_eq!(r.requests.lookup("log"), None);
    assert_eq!(r.events.lookup("log"), Some(&"log-handler"));
    assert_eq!(r.events.lookup("ping"), None);
}
