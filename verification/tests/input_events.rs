use counter_tui::input::{
    DevInputEvent, Event, EventHandler, EventType, HandlerMode, Key, MODIFIER_CONTROL,
    MODIFIER_NONE, TerminalCode, is_interrupt,
};

#[test]
fn test_simulate_key() {
    let mut event_handler = EventHandler::new();
    event_handler.simulate_key(Key::Char('h'));
    let key: Key = event_handler.poll().unwrap().into();
    assert_eq!(key, Key::Char('h'));
    assert_ne!(key, Key::Enter);
    event_handler.simulate_key(Key::Char('f'));
    event_handler.simulate_key(Key::Char('o'));
    event_handler.simulate_key(Key::Char('o'));
    let mut word = String::new();
    while event_handler.has_event() {
        let key: Key = event_handler.poll().unwrap().into();
        word.push(key.to_char().unwrap())
    }
    assert_eq!(word, "foo".to_string())
}

#[test]
fn test_injection_round_trip() {
    let mut handler = EventHandler::new();
    assert_eq!(handler.get_mode(), HandlerMode::Terminal);
    handler.simulate_key(Key::Char('k'));
    let event = handler.poll().expect("the simulated event must come straight back");
    assert_eq!(event.type_, EventType::KeyEvent(Key::Char('k')));
    assert_eq!(event.source, HandlerMode::Terminal);
    assert_eq!(event.modifiers, MODIFIER_NONE);
    assert_eq!(Key::from(event), Key::Char('k'));
    assert!(!handler.has_event());
}

#[test]
fn test_fifo_preservation() {
    let mut handler = EventHandler::new();
    handler.simulate_key(Key::Char('a'));
    handler.simulate_key(Key::Char('b'));
    handler.simulate_key(Key::Char('c'));
    assert_eq!(Key::from(handler.poll().unwrap()), Key::Char('a'));
    assert_eq!(Key::from(handler.poll().unwrap()), Key::Char('b'));
    assert_eq!(Key::from(handler.poll().unwrap()), Key::Char('c'));
    assert!(handler.poll().is_none());
}

#[test]
fn test_stale_event_discard() {
    let mut handler = EventHandler::new();
    handler.set_fd(5);
    handler.simulate_key(Key::Char('x'));
    handler.toggle_mode();
    assert_eq!(handler.get_mode(), HandlerMode::Device);
    assert!(handler.poll().is_none());
    assert!(!handler.has_event());
    assert_eq!(handler.get_buffer().len(), 0);
}

#[test]
fn test_stale_event_discarded_by_poll() {
    // A stale event that is still buffered is removed, not returned.
    let mut handler = EventHandler::new();
    handler.simulate_key(Key::Char('x'));
    handler.set_mode(HandlerMode::Device);
    assert!(handler.has_event());
    assert!(handler.poll().is_none());
    assert!(!handler.has_event());
}

#[test]
fn test_empty_queue_contract() {
    let mut handler = EventHandler::new();
    assert!(!handler.has_event());
    assert!(handler.poll().is_none());
    assert!(!handler.has_event());
}

#[test]
fn test_toggle_noop_without_device() {
    let mut handler = EventHandler::new();
    handler.simulate_key(Key::Char('z'));
    handler.toggle_mode();
    assert_eq!(handler.get_mode(), HandlerMode::Terminal);
    // Nothing switched, so nothing was flushed either.
    assert!(handler.has_event());
    assert_eq!(Key::from(handler.poll().unwrap()), Key::Char('z'));
}

#[test]
fn test_toggle_with_device_flips_and_flushes() {
    let mut handler = EventHandler::new();
    handler.set_fd(7);
    handler.simulate_key(Key::Char('x'));
    handler.toggle_mode();
    assert_eq!(handler.get_mode(), HandlerMode::Device);
    assert_eq!(handler.get_buffer().len(), 0);
    handler.toggle_mode();
    assert_eq!(handler.get_mode(), HandlerMode::Terminal);
}

#[test]
fn test_drain_reconstructs_foo() {
    let mut handler = EventHandler::new();
    handler.simulate_key(Key::Char('f'));
    handler.simulate_key(Key::Char('o'));
    handler.simulate_key(Key::Char('o'));
    let mut word = String::new();
    while handler.has_event() {
        if let Some(event) = handler.poll() {
            word.push(Key::from(event).to_char().unwrap());
        }
    }
    assert_eq!(word, "foo");
}

#[test]
fn test_decode_totality_for_device_scancodes() {
    assert_eq!(Key::from(1u16), Key::Esc);
    assert_eq!(Key::from(13u16), Key::Char('='));
    assert_eq!(Key::from(16u16), Key::Char('q'));
    assert_eq!(Key::from(28u16), Key::Enter);
    assert_eq!(Key::from(74u16), Key::Char('-'));
    assert_eq!(Key::from(78u16), Key::Char('+'));
    assert_eq!(Key::from(96u16), Key::Enter);
    let mapped = [1u16, 13, 16, 28, 74, 78, 96];
    for code in 0u16..=2000u16 {
        if !mapped.contains(&code) {
            assert_eq!(Key::from(code), Key::Null);
        }
    }
    assert_eq!(Key::from(u16::MAX), Key::Null);
}

#[test]
fn test_event_stamping_and_buffer() {
    let mut handler = EventHandler::new();
    handler.simulate_key(Key::Char('a'));
    handler.simulate_key(Key::Char('b'));
    let buffer = handler.get_buffer();
    assert_eq!(buffer.len(), 2);
    assert_eq!(buffer[0].time, 0);
    assert_eq!(buffer[1].time, 1);
    assert_eq!(Key::from(buffer[0]), Key::Char('a'));
    assert_eq!(Key::from(buffer[1]), Key::Char('b'));
    // The snapshot is read-only: the queue still holds both events.
    assert!(handler.has_event());
    assert_eq!(handler.get_buffer().len(), 2);
}

#[test]
fn test_start_stop() {
    let mut handler = EventHandler::new();
    assert!(handler.start().is_ok());
    assert!(handler.start().is_ok());
    handler.stop();
    assert!(handler.start().is_ok());
}

#[test]
fn test_terminal_code_decoding() {
    assert_eq!(Key::from(TerminalCode::Char('x')), Key::Char('x'));
    assert_eq!(Key::from(TerminalCode::F(5)), Key::F(5));
    assert_eq!(Key::from(TerminalCode::Enter), Key::Enter);
    assert_eq!(Key::from(TerminalCode::Esc), Key::Esc);
    assert_eq!(Key::from(TerminalCode::BackTab), Key::BackTab);
    assert_eq!(Key::from(TerminalCode::Media), Key::Null);
    assert_eq!(Key::from(TerminalCode::Modifier), Key::Null);
}

#[test]
fn test_event_from_terminal_and_mouse() {
    let event = Event::from_terminal(TerminalCode::Char('w'), MODIFIER_NONE);
    assert_eq!(event.type_, EventType::KeyEvent(Key::Char('w')));
    assert_eq!(event.source, HandlerMode::Terminal);
    let mouse = Event::from_mouse(3, 9, MODIFIER_NONE);
    assert_eq!(mouse.type_, EventType::MouseEvent((3, 9)));
    assert_eq!(Key::from(mouse), Key::Null);
}

#[test]
fn test_is_interrupt() {
    let ctrl_c = Event::from_terminal(TerminalCode::Char('c'), MODIFIER_CONTROL);
    assert!(is_interrupt(&ctrl_c));
    let plain_c = Event::from_terminal(TerminalCode::Char('c'), MODIFIER_NONE);
    assert!(!is_interrupt(&plain_c));
    let ctrl_d = Event::from_terminal(TerminalCode::Char('d'), MODIFIER_CONTROL);
    assert!(!is_interrupt(&ctrl_d));
}

#[test]
fn test_device_record_decode() {
    let mut buf = [0u8; 24];
    buf[16] = 1; // record type: key
    buf[18] = 16; // scancode for 'q'
    let record = DevInputEvent::from_record(&buf).expect("a key release is accepted");
    assert_eq!(record.type_, 1);
    assert_eq!(record.code, 16);
    assert_eq!(record.value, 0);
    let event = Event::from(record);
    assert_eq!(event.type_, EventType::KeyEvent(Key::Char('q')));
    assert_eq!(event.source, HandlerMode::Device);
}

#[test]
fn test_device_record_fields() {
    let mut buf = [0u8; 24];
    // seconds = 0x0201, microseconds = 0x0403, little endian
    buf[0] = 0x01;
    buf[1] = 0x02;
    buf[8] = 0x03;
    buf[9] = 0x04;
    buf[16] = 1;
    buf[18] = 0x1c; // 28: Enter
    buf[19] = 0x00;
    let record = DevInputEvent::from_record(&buf).unwrap();
    assert_eq!(record.time, (0x0201, 0x0403));
    assert_eq!(record.code, 28);
    assert_eq!(Key::from(record.code), Key::Enter);
}

#[test]
fn test_device_record_rejections() {
    // Too short.
    assert!(DevInputEvent::from_record(&[0u8; 23]).is_none());
    // Not a key record.
    let mut abs = [0u8; 24];
    abs[16] = 3;
    assert!(DevInputEvent::from_record(&abs).is_none());
    // A key press (value 1), not a release.
    let mut press = [0u8; 24];
    press[16] = 1;
    press[20] = 1;
    assert!(DevInputEvent::from_record(&press).is_none());
    // A negative value.
    let mut neg = [0u8; 24];
    neg[16] = 1;
    neg[20] = 0xff;
    neg[21] = 0xff;
    neg[22] = 0xff;
    neg[23] = 0xff;
    assert!(DevInputEvent::from_record(&neg).is_none());
}

#[test]
fn test_unmapped_device_key_is_inert() {
    let mut buf = [0u8; 24];
    buf[16] = 1;
    buf[18] = 30; // 'a' on the reference platform: not in the table
    let record = DevInputEvent::from_record(&buf).unwrap();
    let event = Event::from(record);
    assert_eq!(event.type_, EventType::KeyEvent(Key::Null));
}

#[test]
fn test_push_event_keeps_source_tag() {
    let mut handler = EventHandler::new();
    handler.set_fd(4);
    let mut buf = [0u8; 24];
    buf[16] = 1;
    buf[18] = 78; // '+'
    let record = DevInputEvent::from_record(&buf).unwrap();
    handler.push_event(Event::from(record));
    // The device event is stale while the terminal is selected.
    assert!(handler.poll().is_none());
    handler.push_event(Event::from(record));
    handler.toggle_mode(); // flushes, selects the device
    handler.push_event(Event::from(record));
    let event = handler.poll().unwrap();
    assert_eq!(event.source, HandlerMode::Device);
    assert_eq!(Key::from(event), Key::Char('+'));
}
