use emulator::relay::{_send_terminal_data, send_terminal_data, Relay, TerminalData};

fn pairs(events: &[TerminalData]) -> Vec<(String, String)> {
    events
        .iter()
        .map(|e| (e.terminal_id.clone(), e.data.clone()))
        .collect()
}

#[test]
fn relay_starts_empty() {
    let mut relay = Relay::new();
    assert_eq!(relay.len(), 0);
    assert!(relay.take_pending().is_empty());
}

#[test]
fn relay_single_event_payload() {
    let mut relay = Relay::new();
    _send_terminal_data(&mut relay, "t1", "hello");
    assert_eq!(relay.len(), 1);
    let events = relay.take_pending();
    assert_eq!(pairs(&events), vec![("t1".to_string(), "hello".to_string())]);
    assert_eq!(relay.len(), 0);
}

#[test]
fn relay_keeps_call_order() {
    let mut relay = Relay::new();
    send_terminal_data(&mut relay, b"t1", b"hello");
    send_terminal_data(&mut relay, b"uart0", b"boot ok\n");
    _send_terminal_data(&mut relay, "t1", "");
    let events = relay.take_pending();
    assert_eq!(
        pairs(&events),
        vec![
            ("t1".to_string(), "hello".to_string()),
            ("uart0".to_string(), "boot ok\n".to_string()),
            ("t1".to_string(), String::new()),
        ]
    );
}

#[test]
fn relay_invalid_bytes_are_replaced() {
    let mut relay = Relay::new();
    send_terminal_data(&mut relay, b"t1", &[0x66, 0xFF, 0x6F]);
    send_terminal_data(&mut relay, &[0xC3], b"x");
    let events = relay.take_pending();
    assert_eq!(
        pairs(&events),
        vec![
            ("t1".to_string(), "f\u{FFFD}o".to_string()),
            ("\u{FFFD}".to_string(), "x".to_string()),
        ]
    );
}

#[test]
fn relay_valid_multibyte_text_is_kept() {
    let mut relay = Relay::new();
    send_terminal_data(&mut relay, "t\u{e9}".as_bytes(), "h\u{e9}llo \u{2713}".as_bytes());
    let events = relay.take_pending();
    assert_eq!(
        pairs(&events),
        vec![("t\u{e9}".to_string(), "h\u{e9}llo \u{2713}".to_string())]
    );
}

#[test]
fn relay_one_event_per_call() {
    let mut relay = Relay::new();
    for source in 0..100u32 {
        for call in 0..100u32 {
            let id = format!("t{}", source);
            let text = format!("{}", call);
            send_terminal_data(&mut relay, id.as_bytes(), text.as_bytes());
        }
    }
    assert_eq!(relay.len(), 10_000);
    let events = relay.take_pending();
    assert_eq!(events.len(), 10_000);
    for (k, e) in events.iter().enumerate() {
        assert_eq!(e.terminal_id, format!("t{}", k / 100));
        assert_eq!(e.data, format!("{}", k % 100));
    }
}

#[test]
fn relay_take_pending_twice() {
    let mut relay = Relay::new();
    _send_terminal_data(&mut relay, "a", "1");
    assert_eq!(relay.take_pending().len(), 1);
    _send_terminal_data(&mut relay, "b", "2");
    let events = relay.take_pending();
    assert_eq!(pairs(&events), vec![("b".to_string(), "2".to_string())]);
}
