use phosphor::buffer::Buffer;
use phosphor::frame::Frame;
use phosphor::layout::Rect;
use phosphor::style::{Color, Style};
use phosphor::widgets::Text;

#[test]
fn test_frame_render_widget() {
    let mut buffer = Buffer::new(10, 1);
    let mut frame = Frame::new(&mut buffer, Rect::new(0, 0, 10, 1));
    let text = Text::new("W");

    frame.render_widget(text, Rect::new(0, 0, 10, 1));

    assert_eq!(buffer.get(0, 0).symbol, 'W');
}

#[test]
fn test_frame_with_style_scoped() {
    let mut buffer = Buffer::new(10, 1);
    let mut frame = Frame::new(&mut buffer, Rect::new(0, 0, 10, 1));
    let red = Style::new().fg(Color::Red);
    let blue = Style::new().fg(Color::Blue);

    frame.set_style(blue);
    frame.with_style(red, |f| {
        f.write_str(0, 0, "R");
        assert_eq!(f.current_style.foreground, Some(Color::Red));
    });

    frame.write_str(1, 0, "B");

    assert_eq!(buffer.get(0, 0).symbol, 'R');
    assert_eq!(buffer.get(0, 0).style.foreground, Some(Color::Red));
    assert_eq!(buffer.get(1, 0).symbol, 'B');
    assert_eq!(buffer.get(1, 0).style.foreground, Some(Color::Blue));
}

#[test]
fn test_frame_render_area_translation() {
    let mut buffer = Buffer::new(20, 20);
    let mut frame = Frame::new(&mut buffer, Rect::new(0, 0, 20, 20));
    let sub_area = Rect::new(5, 5, 10, 10);

    frame.render_area(sub_area, |f| {
        f.write_str(0, 0, "X");
    });

    assert_eq!(buffer.get(5, 5).symbol, 'X');
    assert_eq!(buffer.get(0, 0).symbol, ' ');
}

#[test]
fn test_frame_styled_write_str() {
    let mut buffer = Buffer::new(10, 1);
    let mut frame = Frame::new(&mut buffer, Rect::new(0, 0, 10, 1));
    let style = Style::new().fg(Color::Red);

    frame.set_style(style);
    frame.write_str(0, 0, "A");

    assert_eq!(buffer.get(0, 0).symbol, 'A');
    assert_eq!(buffer.get(0, 0).style.foreground, Some(Color::Red));
}

#[test]
fn test_frame_write_str() {
    let mut buffer = Buffer::new(10, 1);
    let mut frame = Frame::new(&mut buffer, Rect::new(0, 0, 10, 1));

    frame.write_str(2, 0, "Hello");

    assert_eq!(buffer.get(1, 0).symbol, ' ');
    assert_eq!(buffer.get(2, 0).symbol, 'H');
    assert_eq!(buffer.get(6, 0).symbol, 'o');
    assert_eq!(buffer.get(7, 0).symbol, ' ');
}

#[test]
fn test_frame_write_str_clipping() {
    let mut buffer = Buffer::new(5, 1);
    let mut frame = Frame::new(&mut buffer, Rect::new(0, 0, 10, 1));

    frame.write_str(2, 0, "Hello World");

    assert_eq!(buffer.get(1, 0).symbol, ' ');
    assert_eq!(buffer.get(2, 0).symbol, 'H');
    assert_eq!(buffer.get(4, 0).symbol, 'l');
}

#[test]
fn write_far_outside_the_buffer_is_dropped() {
    let mut buffer = Buffer::new(3, 2);
    let mut frame = Frame::new(&mut buffer, Rect::new(65530, 65530, 3, 2));
    frame.write_str(10, 10, "abcdef");
    frame.area = Rect::new(0, 0, 3, 2);
    frame.write_str(1, 1, "\u{e9}\u{e8}x");
    assert_eq!(buffer.get(1, 1).symbol, '\u{e9}');
    assert_eq!(buffer.get(2, 1).symbol, '\u{e8}');
    assert_eq!(buffer.get(0, 0).symbol, ' ');
}

#[test]
fn reset_style_and_accessors() {
    let mut buffer = Buffer::new(4, 2);
    let mut frame = Frame::new(&mut buffer, Rect::new(1, 0, 3, 2));
    assert_eq!(frame.width(), 3);
    assert_eq!(frame.height(), 2);
    assert_eq!(frame.area(), Rect::new(1, 0, 3, 2));
    frame.set_style(Style::new().bg(Color::Cyan));
    frame.reset_style();
    frame.write_str(0, 1, "z");
    assert_eq!(buffer.get(1, 1).symbol, 'z');
    assert_eq!(*buffer.get(1, 1), phosphor::Cell { symbol: 'z', style: Style::new() });
}
