use iggy_core::sessions::{SessionEntry, SessionTable};

fn entry(key: &str, client_id: u128, expiry: u64) -> SessionEntry {
    SessionEntry { key: key.to_owned(), client_id, expiry }
}

#[test]
fn live_sessions_are_reused_until_they_expire() {
    let mut table = SessionTable::new(2);
    let (admitted, torn) = table.install_registered(entry("jwt:a", 11, 100), 10);
    assert!(admitted && torn.is_empty());
    assert_eq!(table.live_session("jwt:a", 99), Some(11));
    assert_eq!(table.live_session("jwt:a", 100), None);
    assert_eq!(table.live_session("pat:b", 10), None);
}

#[test]
fn expired_entries_are_swept_before_the_cap_applies() {
    let mut table = SessionTable::new(2);
    assert!(table.install_registered(entry("jwt:a", 1, 50), 0).0);
    assert!(table.install_registered(entry("jwt:b", 2, 500), 0).0);
    let (admitted, torn) = table.install_registered(entry("jwt:c", 3, 500), 10);
    assert!(!admitted);
    assert!(torn.is_empty());
    let (admitted, torn) = table.install_registered(entry("jwt:c", 3, 500), 60);
    assert!(admitted);
    assert_eq!(torn, vec![1]);
    assert_eq!(table.entries.len(), 2);
    assert_eq!(table.live_session("jwt:c", 60), Some(3));
    let torn = table.sweep_expired(600);
    assert_eq!(torn, vec![2, 3]);
    assert!(table.entries.is_empty());
}

#[test]
fn forgetting_is_fenced_by_client_id() {
    let mut table = SessionTable::new(4);
    assert!(table.install_registered(entry("pat:h", 7, 100), 0).0);
    assert!(table.install_registered(entry("pat:h", 8, 100), 0).0);
    assert_eq!(table.entries.len(), 1);
    assert_eq!(table.forget_if_same("pat:h", 7), None);
    assert_eq!(table.live_session("pat:h", 0), Some(8));
    assert_eq!(table.forget_if_same("pat:h", 8), Some(8));
    assert!(table.entries.is_empty());
}
