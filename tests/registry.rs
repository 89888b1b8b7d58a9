use pty_manager::{SessionRegistry, TerminalError};

#[test]
fn pty_manager_new_creates_empty() {
    let reg: SessionRegistry<&str> = SessionRegistry::new();
    assert!(reg.is_empty());
    assert_eq!(reg.next_id(), 1);
}

#[test]
fn spawn_ids_count_from_one_even_after_kill() {
    let mut reg = SessionRegistry::new();
    let first = reg.register("a");
    assert_eq!(first, 1);
    assert_eq!(reg.remove(first), Some("a"));
    let second = reg.register("b");
    assert_eq!(second, 2);
}

#[test]
fn ids_strictly_increase() {
    let mut reg = SessionRegistry::new();
    let mut last = 0u32;
    for i in 0..50 {
        let id = reg.register(i);
        assert!(id > last);
        last = id;
        if i % 3 == 0 {
            reg.remove(id);
        }
    }
    assert_eq!(reg.next_id(), 51);
}

#[test]
fn write_before_any_spawn_is_not_found() {
    let reg: SessionRegistry<u8> = SessionRegistry::new();
    assert_eq!(reg.get(99), Err(TerminalError::SessionNotFound(99)));
}

#[test]
fn lookup_after_kill_is_not_found() {
    let mut reg = SessionRegistry::new();
    let id = reg.register(7u8);
    assert_eq!(reg.get(id), Ok(&7u8));
    assert_eq!(reg.remove(id), Some(7u8));
    assert_eq!(reg.get(id), Err(TerminalError::SessionNotFound(id)));
    assert!(!reg.contains(id));
}

#[test]
fn kill_twice_is_harmless() {
    let mut reg = SessionRegistry::new();
    let id = reg.register(1u8);
    assert_eq!(reg.remove(id), Some(1u8));
    assert_eq!(reg.remove(id), None);
    assert_eq!(reg.len(), 0);
    assert_eq!(reg.next_id(), 2);
}

#[test]
fn kill_of_unknown_id_changes_nothing() {
    let mut reg = SessionRegistry::new();
    let id = reg.register(5u8);
    assert_eq!(reg.remove(42), None);
    assert_eq!(reg.len(), 1);
    assert_eq!(reg.get(id), Ok(&5u8));
}

#[test]
fn two_sessions_get_distinct_ids() {
    let mut reg = SessionRegistry::new();
    let a = reg.register("first");
    let b = reg.register("second");
    assert_ne!(a, b);
    assert_eq!(reg.get(a), Ok(&"first"));
    assert_eq!(reg.get(b), Ok(&"second"));
    assert_eq!(reg.len(), 2);
    assert!(reg.can_register());
}
