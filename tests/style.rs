use phosphor::style::{Color, Modifier, Style};

#[test]
fn test_style_builder() {
    let style = Style::new()
        .fg(Color::Red)
        .bg(Color::Blue)
        .modifier(Modifier::bold() | Modifier::italic());

    assert_eq!(style.foreground, Some(Color::Red));
    assert_eq!(style.background, Some(Color::Blue));
    assert!(style.modifiers.contains(Modifier::bold()));
    assert!(style.modifiers.contains(Modifier::italic()));
    assert!(!style.modifiers.contains(Modifier::underline()));
}

#[test]
fn test_color_from_hex() {
    assert_eq!(Color::from_hex("#FF5733"), Some(Color::Rgb(255, 87, 51)));
    assert_eq!(Color::from_hex("000000"), Some(Color::Rgb(0, 0, 0)));
    assert_eq!(Color::from_hex("FFFFFF"), Some(Color::Rgb(255, 255, 255)));
    assert_eq!(Color::from_hex("#123"), None);
    assert_eq!(Color::from_hex("invalid"), None);
}

#[test]
fn test_color_to_ansi() {
    assert_eq!(Color::Red.to_ansi_fg(), "31");
    assert_eq!(Color::BrightBlue.to_ansi_bg(), "104");
    assert_eq!(Color::Rgb(10, 20, 30).to_ansi_fg(), "38;2;10;20;30");
    assert_eq!(Color::Indexed(123).to_ansi_bg(), "48;5;123");
}

#[test]
fn test_style_to_ansi() {
    assert_eq!(Style::default().to_ansi(), "\x1b[0m");

    let style = Style::new()
        .fg(Color::Red)
        .bg(Color::Blue)
        .modifier(Modifier::bold());

    assert_eq!(style.to_ansi(), "\x1b[0;31;44;1m");
}

#[test]
fn from_hex_reads_lower_case_and_rejects_near_misses() {
    assert_eq!(Color::from_hex("#a0b1c2"), Some(Color::Rgb(160, 177, 194)));
    assert_eq!(Color::from_hex("##a0b1c2"), None);
    assert_eq!(Color::from_hex("#a0b1c"), None);
    assert_eq!(Color::from_hex("a0b1c2d"), None);
    assert_eq!(Color::from_hex("+F+F+F"), None);
    assert_eq!(Color::from_hex("aébcd"), None);
    assert_eq!(Color::from_hex(""), None);
}

#[test]
fn named_colors_map_to_fixed_codes() {
    assert_eq!(Color::Reset.to_ansi_fg(), "39");
    assert_eq!(Color::Reset.to_ansi_bg(), "49");
    assert_eq!(Color::Black.to_ansi_fg(), "30");
    assert_eq!(Color::White.to_ansi_bg(), "47");
    assert_eq!(Color::BrightBlack.to_ansi_fg(), "90");
    assert_eq!(Color::BrightWhite.to_ansi_bg(), "107");
    assert_eq!(Color::Indexed(0).to_ansi_fg(), "38;5;0");
    assert_eq!(Color::Rgb(255, 0, 9).to_ansi_bg(), "48;2;255;0;9");
}

#[test]
fn modifiers_follow_the_fixed_order() {
    let all = Modifier::bold()
        | Modifier::italic()
        | Modifier::underline()
        | Modifier::reversed()
        | Modifier::dim();
    let style = Style::new().modifier(all).bg(Color::Indexed(7));
    assert_eq!(style.to_ansi(), "\x1b[0;48;5;7;1;2;3;4;7m");
}

#[test]
fn modifier_insert_and_contains() {
    let mut m = Modifier::empty();
    assert!(!m.contains(Modifier::dim()));
    m.insert(Modifier::dim());
    assert!(m.contains(Modifier::dim()));
    assert!(m.contains(Modifier::empty()));
    assert!(!m.contains(Modifier::dim() | Modifier::bold()));
}
