use pty_manager::relay::{relay_step, ReadOutcome, RelayAction, RELAY_BUFFER_SIZE};

#[test]
fn relay_emits_text_tagged_with_session() {
    match relay_step(3, &ReadOutcome::Data(b"hello\r\n".to_vec())) {
        RelayAction::Emit(ev) => {
            assert_eq!(ev.session_id, 3);
            assert_eq!(ev.data, "hello\r\n");
        }
        RelayAction::Stop => panic!("expected an event"),
    }
}

#[test]
fn relay_replaces_invalid_bytes() {
    match relay_step(1, &ReadOutcome::Data(vec![b'a', 0xff, b'b'])) {
        RelayAction::Emit(ev) => assert_eq!(ev.data, "a\u{fffd}b"),
        RelayAction::Stop => panic!("expected an event"),
    }
}

#[test]
fn relay_stops_at_end_of_stream() {
    assert!(matches!(relay_step(1, &ReadOutcome::Data(Vec::new())), RelayAction::Stop));
}

#[test]
fn relay_stops_on_read_error() {
    assert!(matches!(relay_step(1, &ReadOutcome::Failed), RelayAction::Stop));
}

#[test]
fn relay_buffer_is_four_kib() {
    assert_eq!(RELAY_BUFFER_SIZE, 4096);
}
