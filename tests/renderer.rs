use phosphor::buffer::Buffer;
use phosphor::renderer::Renderer;
use phosphor::style::{Color, Style};

#[test]
fn test_renderer_minimal_updates() {
    let mut renderer = Renderer::new(3, 3);

    let mut next = Buffer::new(3, 3);
    next.set_with_style(1, 1, 'X', Style::new().fg(Color::Red));

    let log = renderer.render(&next);

    let found = log.iter().any(|s| s.contains("X"));
    if !found {
        panic!("'X' not found in log: {:?}", log);
    }
    assert!(log.iter().any(|s| s.contains("0;31")));
}

#[test]
fn render_writes_cursor_style_and_symbol_per_change() {
    let mut renderer = Renderer::new(3, 3);
    let mut next = Buffer::new(3, 3);
    next.set_with_style(1, 2, 'X', Style::new().fg(Color::Red));
    let writes = renderer.render(&next);
    assert_eq!(writes, vec!["\x1b[3;2H".to_string(), "\x1b[0;31m".to_string(), "X".to_string()]);
}

#[test]
fn rendering_the_same_buffer_twice_writes_nothing_the_second_time() {
    let mut renderer = Renderer::new(4, 2);
    let mut next = Buffer::new(4, 2);
    next.set(0, 0, 'a');
    next.set(3, 1, '\u{e9}');
    let first = renderer.render(&next);
    assert_eq!(first.len(), 6);
    assert_eq!(first[5], "\u{e9}");
    assert!(renderer.render(&next).is_empty());
}

#[test]
fn resize_clears_and_repaints_everything() {
    let mut renderer = Renderer::new(2, 1);
    let next = Buffer::new(1, 2);
    let writes = renderer.render(&next);
    assert_eq!(writes.len(), 1 + 3 * 2);
    assert_eq!(writes[0], "\x1b[2J");
    assert_eq!(writes[1], "\x1b[1;1H");
    assert_eq!(writes[2], "\x1b[0m");
    assert_eq!(writes[3], " ");
    assert_eq!(writes[4], "\x1b[2;1H");
}

#[test]
fn cursor_positions_use_full_decimal_numbers() {
    let mut renderer = Renderer::new(120, 12);
    let mut next = Buffer::new(120, 12);
    next.set(109, 10, 'q');
    let writes = renderer.render(&next);
    assert_eq!(writes[0], "\x1b[11;110H");
}
