use phosphor::input::{
    Event, Input, KeyCode, KeyEvent, KeyModifiers, MouseEvent, MouseKind, Parser, ReadStep,
};

#[test]
fn test_parse_simple_char() {
    let mut parser = Parser::new();
    let events = parser.parse(b"a");
    assert_eq!(events, vec![Event::Key(KeyEvent::new(KeyCode::Char('a')))]);
}

#[test]
fn test_parse_enter() {
    let mut parser = Parser::new();
    let events = parser.parse(b"\r");
    assert_eq!(events, vec![Event::Key(KeyEvent::new(KeyCode::Enter))]);
}

#[test]
fn test_parse_arrow() {
    let mut parser = Parser::new();
    let events = parser.parse(b"\x1b[A");
    assert_eq!(events, vec![Event::Key(KeyEvent::new(KeyCode::Up))]);
}

#[test]
fn test_parse_multiple() {
    let mut parser = Parser::new();
    let events = parser.parse(b"a\rb");
    assert_eq!(
        events,
        vec![
            Event::Key(KeyEvent::new(KeyCode::Char('a'))),
            Event::Key(KeyEvent::new(KeyCode::Enter)),
            Event::Key(KeyEvent::new(KeyCode::Char('b'))),
        ]
    );
}

#[test]
fn test_parse_utf8() {
    let mut parser = Parser::new();
    let events = parser.parse(&[0xc3, 0xa9]);
    assert_eq!(events, vec![Event::Key(KeyEvent::new(KeyCode::Char('\u{e9}')))]);
}

#[test]
fn test_parse_mouse_click() {
    let mut parser = Parser::new();
    let events = parser.parse(b"\x1b[M +&");

    assert_eq!(events.len(), 1);
    if let Event::Mouse(mouse) = &events[0] {
        assert_eq!(mouse.kind, MouseKind::LeftClick);
        assert_eq!(mouse.x, 10);
        assert_eq!(mouse.y, 5);
    } else {
        panic!("Expected Mouse event");
    }
}

/// A device that hands out queued bytes, at most `max_read` at a time.
struct FakeDevice {
    input: Vec<u8>,
    max_read: usize,
}

/// One read cycle, as the runtime runs it, against the fake device.
fn read_cycle(input: &mut Input, device: &mut FakeDevice) -> Vec<Event> {
    let mut events = Vec::new();
    let mut step = ReadStep::Read;
    loop {
        match step {
            ReadStep::Read => {
                let n = device.input.len().min(device.max_read);
                let bytes: Vec<u8> = device.input.drain(..n).collect();
                let (mut decoded, next) = input.on_read(&bytes);
                events.append(&mut decoded);
                step = next;
            }
            ReadStep::Poll => {
                let (mut decoded, next) = input.on_poll(!device.input.is_empty());
                events.append(&mut decoded);
                step = next;
            }
            ReadStep::Done => return events,
        }
    }
}

#[test]
fn test_input_read() {
    let mut device = FakeDevice { input: b"a".to_vec(), max_read: 1024 };
    let mut input = Input::new();
    let events = read_cycle(&mut input, &mut device);
    assert_eq!(events, vec![Event::Key(KeyEvent::new(KeyCode::Char('a')))]);
}

#[test]
fn test_input_esc_timeout() {
    let mut device = FakeDevice { input: b"\x1b".to_vec(), max_read: 1024 };
    let mut input = Input::new();
    let events = read_cycle(&mut input, &mut device);
    assert_eq!(events, vec![Event::Key(KeyEvent::new(KeyCode::Esc))]);
}

#[test]
fn test_input_split_arrow() {
    let mut device = FakeDevice { input: b"\x1b[A".to_vec(), max_read: 1 };
    let mut input = Input::new();
    let events = read_cycle(&mut input, &mut device);
    assert_eq!(events, vec![Event::Key(KeyEvent::new(KeyCode::Up))]);
}

#[test]
fn arrow_split_over_two_calls_decodes_once() {
    let mut parser = Parser::new();
    assert!(parser.parse(b"\x1b").is_empty());
    assert!(parser.has_pending_state());
    let events = parser.parse(b"[A");
    assert_eq!(events, vec![Event::Key(KeyEvent::new(KeyCode::Up))]);
    assert!(!parser.has_pending_state());
}

#[test]
fn lone_escape_is_finished_as_esc() {
    let mut parser = Parser::new();
    assert!(parser.parse(b"\x1b").is_empty());
    assert!(parser.has_pending_state());
    let events = parser.finish_incomplete();
    assert_eq!(events, vec![Event::Key(KeyEvent::new(KeyCode::Esc))]);
    assert!(!parser.has_pending_state());
    assert!(parser.finish_incomplete().is_empty());
}

#[test]
fn finish_drops_an_unfinished_character() {
    let mut parser = Parser::new();
    assert!(parser.parse(&[0xe2, 0x82]).is_empty());
    assert!(parser.has_pending_state());
    assert!(parser.finish_incomplete().is_empty());
    assert!(!parser.has_pending_state());
}

#[test]
fn unknown_csi_gives_esc_and_reprocesses_the_rest() {
    let mut parser = Parser::new();
    let events = parser.parse(b"\x1b[Z");
    assert_eq!(
        events,
        vec![
            Event::Key(KeyEvent::new(KeyCode::Esc)),
            Event::Key(KeyEvent::new(KeyCode::Char('['))),
            Event::Key(KeyEvent::new(KeyCode::Char('Z'))),
        ]
    );
}

#[test]
fn escape_followed_by_a_letter_is_esc_then_the_letter() {
    let mut parser = Parser::new();
    let events = parser.parse(b"\x1bq");
    assert_eq!(
        events,
        vec![
            Event::Key(KeyEvent::new(KeyCode::Esc)),
            Event::Key(KeyEvent::new(KeyCode::Char('q'))),
        ]
    );
}

#[test]
fn short_mouse_report_waits_for_its_data() {
    let mut parser = Parser::new();
    assert!(parser.parse(b"\x1b[M ").is_empty());
    assert!(parser.has_pending_state());
    let events = parser.parse(&[33, 33]);
    assert_eq!(events, vec![Event::Mouse(MouseEvent::new(0, 0, MouseKind::LeftClick))]);
}

#[test]
fn mouse_buttons_and_clamped_coordinates() {
    let mut parser = Parser::new();
    let mut bytes = Vec::new();
    for (button, x, y) in [(33u8, 40u8, 34u8), (34, 33, 33), (96, 20, 10), (97, 33, 33), (35, 33, 33)] {
        bytes.extend_from_slice(b"\x1b[M");
        bytes.extend_from_slice(&[button, x, y]);
    }
    let events = parser.parse(&bytes);
    assert_eq!(
        events,
        vec![
            Event::Mouse(MouseEvent::new(7, 1, MouseKind::MiddleClick)),
            Event::Mouse(MouseEvent::new(0, 0, MouseKind::RightClick)),
            Event::Mouse(MouseEvent::new(0, 0, MouseKind::ScrollUp)),
            Event::Mouse(MouseEvent::new(0, 0, MouseKind::ScrollDown)),
            Event::Mouse(MouseEvent::new(0, 0, MouseKind::Other)),
        ]
    );
}

#[test]
fn invalid_bytes_are_dropped_without_events() {
    let mut parser = Parser::new();
    // A stray continuation byte, an overlong two-byte form, then 'x'.
    let events = parser.parse(&[0x80, 0xc0, 0x80, b'x']);
    assert_eq!(events, vec![Event::Key(KeyEvent::new(KeyCode::Char('x')))]);
    assert!(!parser.has_pending_state());
}

#[test]
fn four_byte_character_arrives_in_pieces() {
    let mut parser = Parser::new();
    assert!(parser.parse(&[0xf0, 0x9f]).is_empty());
    assert!(parser.parse(&[0x98]).is_empty());
    let events = parser.parse(&[0x80]);
    assert_eq!(events, vec![Event::Key(KeyEvent::new(KeyCode::Char('\u{1f600}')))]);
}

#[test]
fn key_modifiers_set_operations() {
    let mut m = KeyModifiers::empty();
    m.insert(KeyModifiers::ctrl());
    assert!(m.contains(KeyModifiers::ctrl()));
    assert!(!m.contains(KeyModifiers::shift() | KeyModifiers::ctrl()));
    let k = KeyEvent::with_modifiers(KeyCode::Char('c'), m | KeyModifiers::alt());
    assert!(k.modifiers.contains(KeyModifiers::alt()));
    assert_eq!(KeyEvent::new(KeyCode::Tab).modifiers, KeyModifiers::empty());
}

#[test]
fn read_cycle_ends_at_once_on_no_data() {
    let mut device = FakeDevice { input: Vec::new(), max_read: 1024 };
    let mut input = Input::new();
    assert!(read_cycle(&mut input, &mut device).is_empty());
}
