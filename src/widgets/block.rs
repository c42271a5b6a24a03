//! A container with optional borders and a title.
use vstd::prelude::*;
use vstd::string::*;
use crate::frame::Frame;
use crate::layout::Rect;
use crate::style::{Style, plain_style, push_char};
use crate::widgets::Widget;

verus! {

pub const P_BORDER_H: char = '\u{2500}';
pub const P_BORDER_V: char = '\u{2502}';
pub const P_BORDER_TL: char = '\u{250C}';
pub const P_BORDER_TR: char = '\u{2510}';
pub const P_BORDER_BL: char = '\u{2514}';
pub const P_BORDER_BR: char = '\u{2518}';

pub const R_BORDER_H: char = '\u{2500}';
pub const R_BORDER_V: char = '\u{2502}';
pub const R_BORDER_TL: char = '\u{256D}';
pub const R_BORDER_TR: char = '\u{256E}';
pub const R_BORDER_BL: char = '\u{2570}';
pub const R_BORDER_BR: char = '\u{256F}';

pub const D_BORDER_H: char = '\u{2550}';
pub const D_BORDER_V: char = '\u{2551}';
pub const D_BORDER_TL: char = '\u{2554}';
pub const D_BORDER_TR: char = '\u{2557}';
pub const D_BORDER_BL: char = '\u{255A}';
pub const D_BORDER_BR: char = '\u{255D}';

/// The line style of borders.
#[derive(Debug, Clone, Copy, PartialEq, Eq, Structural)]
pub enum BorderType {
    /// Thin lines with square corners.
    Plain,
    /// Thin lines with rounded corners.
    Rounded,
    /// Double lines.
    Double,
}

impl Default for BorderType {
    fn default() -> (r: BorderType)
        ensures
            r == BorderType::Rounded,
    {
        BorderType::Rounded
    }
}

/// The border characters: horizontal, vertical, top-left, top-right,
/// bottom-left and bottom-right.
pub open spec fn border_chars(t: BorderType) -> (char, char, char, char, char, char) {
    match t {
        BorderType::Plain => (
            P_BORDER_H,
            P_BORDER_V,
            P_BORDER_TL,
            P_BORDER_TR,
            P_BORDER_BL,
            P_BORDER_BR,
        ),
        BorderType::Rounded => (
            R_BORDER_H,
            R_BORDER_V,
            R_BORDER_TL,
            R_BORDER_TR,
            R_BORDER_BL,
            R_BORDER_BR,
        ),
        BorderType::Double => (
            D_BORDER_H,
            D_BORDER_V,
            D_BORDER_TL,
            D_BORDER_TR,
            D_BORDER_BL,
            D_BORDER_BR,
        ),
    }
}

impl BorderType {
    /// The border characters: horizontal, vertical, top-left, top-right,
    /// bottom-left and bottom-right.
    pub fn get_chars(&self) -> (r: (char, char, char, char, char, char))
        ensures
            r == border_chars(*self),
    {
        match self {
            BorderType::Plain => (
                P_BORDER_H,
                P_BORDER_V,
                P_BORDER_TL,
                P_BORDER_TR,
                P_BORDER_BL,
                P_BORDER_BR,
            ),
            BorderType::Rounded => (
                R_BORDER_H,
                R_BORDER_V,
                R_BORDER_TL,
                R_BORDER_TR,
                R_BORDER_BL,
                R_BORDER_BR,
            ),
            BorderType::Double => (
                D_BORDER_H,
                D_BORDER_V,
                D_BORDER_TL,
                D_BORDER_TR,
                D_BORDER_BL,
                D_BORDER_BR,
            ),
        }
    }
}

/// A bit set of the sides that carry a border.
#[derive(Debug, Clone, Copy, PartialEq, Eq, Structural)]
pub struct Borders(pub u8);

impl Borders {
    /// No side.
    pub fn none() -> (r: Borders)
        ensures
            r.0 == 0,
    {
        Borders(0)
    }

    /// The top side.
    pub fn top() -> (r: Borders)
        ensures
            r.0 == 1,
    {
        Borders(1)
    }

    /// The right side.
    pub fn right() -> (r: Borders)
        ensures
            r.0 == 2,
    {
        Borders(2)
    }

    /// The bottom side.
    pub fn bottom() -> (r: Borders)
        ensures
            r.0 == 4,
    {
        Borders(4)
    }

    /// The left side.
    pub fn left() -> (r: Borders)
        ensures
            r.0 == 8,
    {
        Borders(8)
    }

    /// All four sides.
    pub fn all() -> (r: Borders)
        ensures
            r.0 == 15,
    {
        Borders(15)
    }

    /// Whether every side of `other` is in this set.
    pub fn contains(&self, other: Borders) -> (r: bool)
        ensures
            r == (self.0 & other.0 == other.0),
    {
        (self.0 & other.0) == other.0
    }
}

impl Default for Borders {
    fn default() -> (r: Borders)
        ensures
            r.0 == 0,
    {
        Borders(0)
    }
}

impl core::ops::BitOr for Borders {
    type Output = Borders;

    fn bitor(self, rhs: Borders) -> Borders {
        Borders(self.0 | rhs.0)
    }
}

impl vstd::std_specs::ops::BitOrSpecImpl for Borders {
    open spec fn obeys_bitor_spec() -> bool {
        true
    }

    open spec fn bitor_req(self, rhs: Borders) -> bool {
        true
    }

    open spec fn bitor_spec(self, rhs: Borders) -> Borders {
        Borders(self.0 | rhs.0)
    }
}

/// A container that can draw borders and a title around its inner area.
pub struct Block {
    pub title: Option<String>,
    pub borders: Borders,
    pub border_type: BorderType,
    pub style: Style,
    pub title_style: Style,
    pub padding_x: u16,
    pub padding_y: u16,
}

impl Default for Block {
    fn default() -> (r: Block)
        ensures
            r.title.is_none(),
            r.borders.0 == 0,
            r.border_type == BorderType::Rounded,
            r.style == plain_style(),
            r.title_style == plain_style(),
            r.padding_x == 0,
            r.padding_y == 0,
    {
        Block::new()
    }
}

/// `a - b`, or 0 when `b` is larger.
pub open spec fn sat_sub(a: int, b: int) -> int {
    if a >= b {
        a - b
    } else {
        0
    }
}

/// `a + b`, or the largest `u16` when the sum is larger.
pub open spec fn sat_add(a: int, b: int) -> int {
    if a + b <= u16::MAX {
        a + b
    } else {
        u16::MAX as int
    }
}

/// The area inside the borders and the padding of `b` within `area`.
pub open spec fn inner_area(b: Block, area: Rect) -> Rect {
    let left: int = if b.borders.0 & 8 == 8 {
        1
    } else {
        0
    };
    let top: int = if b.borders.0 & 1 == 1 {
        1
    } else {
        0
    };
    let right: int = if b.borders.0 & 2 == 2 {
        1
    } else {
        0
    };
    let bottom: int = if b.borders.0 & 4 == 4 {
        1
    } else {
        0
    };
    Rect {
        x: sat_add(sat_add(area.x as int, left), b.padding_x as int) as u16,
        y: sat_add(sat_add(area.y as int, top), b.padding_y as int) as u16,
        width: sat_sub(sat_sub(sat_sub(area.width as int, left), right), 2 * b.padding_x) as u16,
        height: sat_sub(sat_sub(sat_sub(area.height as int, top), bottom), 2 * b.padding_y) as u16,
    }
}

/// A one-character string.
fn char_string(c: char) -> (r: String)
    ensures
        r@ == seq![c],
{
    let mut s = String::new();
    push_char(&mut s, c);
    s
}

impl Block {
    /// A block with no borders, no title, rounded border lines, plain styles
    /// and no padding.
    pub fn new() -> (r: Block)
        ensures
            r.title.is_none(),
            r.borders.0 == 0,
            r.border_type == BorderType::Rounded,
            r.style == plain_style(),
            r.title_style == plain_style(),
            r.padding_x == 0,
            r.padding_y == 0,
    {
        Block {
            title: None,
            borders: Borders(0),
            border_type: BorderType::Rounded,
            style: Style::new(),
            title_style: Style::new(),
            padding_x: 0,
            padding_y: 0,
        }
    }

    /// This block with the given title.
    pub fn title(self, title: &str) -> (r: Block)
        ensures
            r.title matches Some(t) && t@ == title@,
            r.borders == self.borders,
            r.border_type == self.border_type,
            r.style == self.style,
            r.title_style == self.title_style,
            r.padding_x == self.padding_x,
            r.padding_y == self.padding_y,
    {
        Block { title: Some(String::from_str(title)), ..self }
    }

    /// This block with borders on the given sides.
    pub fn borders(self, borders: Borders) -> (r: Block)
        ensures
            r.borders == borders,
            r.title == self.title,
            r.border_type == self.border_type,
            r.style == self.style,
            r.title_style == self.title_style,
            r.padding_x == self.padding_x,
            r.padding_y == self.padding_y,
    {
        Block { borders, ..self }
    }

    /// This block with the given border lines.
    pub fn border_type(self, border_type: BorderType) -> (r: Block)
        ensures
            r.border_type == border_type,
            r.title == self.title,
            r.borders == self.borders,
            r.style == self.style,
            r.title_style == self.title_style,
            r.padding_x == self.padding_x,
            r.padding_y == self.padding_y,
    {
        Block { border_type, ..self }
    }

    /// This block with the given style for its borders.
    pub fn style(self, style: Style) -> (r: Block)
        ensures
            r.style == style,
            r.title == self.title,
            r.borders == self.borders,
            r.border_type == self.border_type,
            r.title_style == self.title_style,
            r.padding_x == self.padding_x,
            r.padding_y == self.padding_y,
    {
        Block { style, ..self }
    }

    /// This block with the given style for its title.
    pub fn title_style(self, style: Style) -> (r: Block)
        ensures
            r.title_style == style,
            r.title == self.title,
            r.borders == self.borders,
            r.border_type == self.border_type,
            r.style == self.style,
            r.padding_x == self.padding_x,
            r.padding_y == self.padding_y,
    {
        Block { title_style: style, ..self }
    }

    /// This block with the same padding on all sides.
    pub fn padding(self, padding: u16) -> (r: Block)
        ensures
            r.padding_x == padding,
            r.padding_y == padding,
            r.title == self.title,
            r.borders == self.borders,
            r.border_type == self.border_type,
            r.style == self.style,
            r.title_style == self.title_style,
    {
        Block { padding_x: padding, padding_y: padding, ..self }
    }

    /// This block with the given padding left and right.
    pub fn padding_x(self, padding: u16) -> (r: Block)
        ensures
            r.padding_x == padding,
            r.padding_y == self.padding_y,
            r.title == self.title,
            r.borders == self.borders,
            r.border_type == self.border_type,
            r.style == self.style,
            r.title_style == self.title_style,
    {
        Block { padding_x: padding, ..self }
    }

    /// This block with the given padding above and below.
    pub fn padding_y(self, padding: u16) -> (r: Block)
        ensures
            r.padding_y == padding,
            r.padding_x == self.padding_x,
            r.title == self.title,
            r.borders == self.borders,
            r.border_type == self.border_type,
            r.style == self.style,
            r.title_style == self.title_style,
    {
        Block { padding_y: padding, ..self }
    }

    /// The area inside the borders and the padding.
    pub fn inner(&self, area: Rect) -> (r: Rect)
        ensures
            r == inner_area(*self, area),
    {
        let mut x: u16 = area.x;
        let mut y: u16 = area.y;
        let mut w: u16 = area.width;
        let mut h: u16 = area.height;
        if self.borders.contains(Borders::left()) {
            x = x.saturating_add(1);
            w = w.saturating_sub(1);
        }
        if self.borders.contains(Borders::top()) {
            y = y.saturating_add(1);
            h = h.saturating_sub(1);
        }
        if self.borders.contains(Borders::right()) {
            w = w.saturating_sub(1);
        }
        if self.borders.contains(Borders::bottom()) {
            h = h.saturating_sub(1);
        }
        x = x.saturating_add(self.padding_x);
        y = y.saturating_add(self.padding_y);
        let px: u32 = 2 * (self.padding_x as u32);
        let py: u32 = 2 * (self.padding_y as u32);
        w = if (w as u32) >= px {
            ((w as u32) - px) as u16
        } else {
            0
        };
        h = if (h as u32) >= py {
            ((h as u32) - py) as u16
        } else {
            0
        };
        Rect::new(x, y, w, h)
    }

    /// Writes `c` at each of `count` cells along a row or a column.
    fn draw_line(frame: &mut Frame, c: char, x: u16, y: u16, count: u16, vertical: bool)
        requires
            old(frame).buffer.wf(),
        ensures
            final(frame).buffer.wf(),
            final(frame).area == old(frame).area,
            final(frame).current_style == old(frame).current_style,
    {
        let s = char_string(c);
        let mut i: u16 = 0;
        while i < count
            invariant
                frame.buffer.wf(),
                frame.area == old(frame).area,
                frame.current_style == old(frame).current_style,
            decreases count - i,
        {
            if vertical {
                frame.write_str(x, i, s.as_str());
            } else {
                frame.write_str(i, y, s.as_str());
            }
            i += 1;
        }
    }
}

impl Widget for Block {
    fn render(self, area: Rect, frame: &mut Frame) {
        let (h, v, tl, tr, bl, br) = self.border_type.get_chars();
        let saved_area = frame.area;
        let saved_style = frame.current_style;
        frame.current_style = self.style;
        frame.area = area;
        let width = area.width;
        let height = area.height;
        if width > 0 && height > 0 {
            if self.borders.contains(Borders::top()) {
                Block::draw_line(frame, h, 0, 0, width, false);
            }
            if self.borders.contains(Borders::bottom()) {
                Block::draw_line(frame, h, 0, height - 1, width, false);
            }
            if self.borders.contains(Borders::left()) {
                Block::draw_line(frame, v, 0, 0, height, true);
            }
            if self.borders.contains(Borders::right()) {
                Block::draw_line(frame, v, width - 1, 0, height, true);
            }
            if self.borders.contains(Borders::top() | Borders::left()) {
                frame.write_str(0, 0, char_string(tl).as_str());
            }
            if self.borders.contains(Borders::top() | Borders::right()) {
                frame.write_str(width - 1, 0, char_string(tr).as_str());
            }
            if self.borders.contains(Borders::bottom() | Borders::left()) {
                frame.write_str(0, height - 1, char_string(bl).as_str());
            }
            if self.borders.contains(Borders::bottom() | Borders::right()) {
                frame.write_str(width - 1, height - 1, char_string(br).as_str());
            }
        }
        if let Some(t) = self.title {
            let style = if self.title_style == Style::new() {
                self.style
            } else {
                self.title_style
            };
            frame.current_style = style;
            let mut label = String::new();
            push_char(&mut label, ' ');
            label.append(t.as_str());
            push_char(&mut label, ' ');
            frame.write_str(2, 0, label.as_str());
        }
        frame.area = saved_area;
        frame.current_style = saved_style;
    }
}

} // verus!
