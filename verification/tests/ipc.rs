use archipelago::ipc::Connection;

#[test]
fn connection_attempted_once_on_success() {
    let mut c: Connection<u32> = Connection::new();
    assert!(c.needs_init());
    assert!(c.ipc().is_none());
    c.record_init(Ok(7));
    assert!(!c.needs_init());
    assert_eq!(c.ipc(), Some(&7));
    assert_eq!(c.init_error(), None);
}

#[test]
fn failure_is_kept_and_not_retried() {
    let mut c: Connection<u32> = Connection::new();
    c.record_init(Err("no simulator".to_string()));
    assert!(!c.needs_init());
    assert_eq!(c.init_error(), Some("no simulator"));
    assert!(c.ipc().is_none());
}
