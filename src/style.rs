//! Colors, text modifiers and styles, and the ANSI SGR codes they produce.
use vstd::prelude::*;
use vstd::string::*;

verus! {

/// Relies on `String::push`: the character is appended at the end.
#[verifier::external_body]
pub(crate) fn push_char(s: &mut String, c: char)
    ensures
        final(s)@ == old(s)@.push(c),
{
    s.push(c);
}

/// The ASCII digit for `d`, which is below ten.
pub open spec fn digit_char(d: nat) -> char {
    ((d + 48) as u8) as char
}

/// The decimal representation of `n`, without leading zeros.
pub open spec fn decimal(n: nat) -> Seq<char>
    decreases n,
{
    if n < 10 {
        seq![digit_char(n)]
    } else {
        decimal(n / 10).push(digit_char(n % 10))
    }
}

/// Appends the decimal representation of `n` to `s`.
pub(crate) fn push_decimal(s: &mut String, n: u32)
    ensures
        final(s)@ == old(s)@ + decimal(n as nat),
    decreases n,
{
    if n >= 10 {
        push_decimal(s, n / 10);
    }
    let d: u32 = n % 10;
    push_char(s, ((d as u8) + 48u8) as char);
    assert(final(s)@ =~= old(s)@ + decimal(n as nat));
}

/// Represents a color in the terminal.
#[derive(Debug, Clone, Copy, PartialEq, Eq, Structural)]
pub enum Color {
    Reset,
    Black,
    Red,
    Green,
    Yellow,
    Blue,
    Magenta,
    Cyan,
    White,
    BrightBlack,
    BrightRed,
    BrightGreen,
    BrightYellow,
    BrightBlue,
    BrightMagenta,
    BrightCyan,
    BrightWhite,
    Indexed(u8),
    Rgb(u8, u8, u8),
}

/// The foreground SGR code of a named color; the background code is ten more.
pub open spec fn named_fg_code(c: Color) -> nat {
    match c {
        Color::Reset => 39,
        Color::Black => 30,
        Color::Red => 31,
        Color::Green => 32,
        Color::Yellow => 33,
        Color::Blue => 34,
        Color::Magenta => 35,
        Color::Cyan => 36,
        Color::White => 37,
        Color::BrightBlack => 90,
        Color::BrightRed => 91,
        Color::BrightGreen => 92,
        Color::BrightYellow => 93,
        Color::BrightBlue => 94,
        Color::BrightMagenta => 95,
        Color::BrightCyan => 96,
        Color::BrightWhite => 97,
        _ => 0,
    }
}

/// The SGR parameters selecting `c`: `lead` is '3' for foreground, '4' for background.
pub open spec fn color_code(c: Color, lead: char, named_offset: nat) -> Seq<char> {
    match c {
        Color::Indexed(i) => seq![lead, '8', ';', '5', ';'] + decimal(i as nat),
        Color::Rgb(r, g, b) => seq![lead, '8', ';', '2', ';'] + decimal(r as nat) + seq![';']
            + decimal(g as nat) + seq![';'] + decimal(b as nat),
        _ => decimal(named_fg_code(c) + named_offset),
    }
}

pub open spec fn fg_code(c: Color) -> Seq<char> {
    color_code(c, '3', 0)
}

pub open spec fn bg_code(c: Color) -> Seq<char> {
    color_code(c, '4', 10)
}

/// Whether `c` is an ASCII hexadecimal digit.
pub open spec fn is_hex_digit(c: char) -> bool {
    ('0' <= c <= '9') || ('a' <= c <= 'f') || ('A' <= c <= 'F')
}

/// The value of a hexadecimal digit.
pub open spec fn hex_digit_value(c: char) -> nat {
    if '0' <= c <= '9' {
        (c as nat - '0' as nat) as nat
    } else if 'a' <= c <= 'f' {
        (c as nat - 'a' as nat + 10) as nat
    } else {
        (c as nat - 'A' as nat + 10) as nat
    }
}

/// `s` without one leading `#`, if it has one.
pub open spec fn strip_hash(s: Seq<char>) -> Seq<char> {
    if s.len() > 0 && s[0] == '#' {
        s.drop_first()
    } else {
        s
    }
}

/// The byte written by the two hex digits of `t` at `i` and `i + 1`.
pub open spec fn hex_byte(t: Seq<char>, i: int) -> u8 {
    (hex_digit_value(t[i]) * 16 + hex_digit_value(t[i + 1])) as u8
}

/// Whether `s` is six hex digits, optionally after one `#`.
pub open spec fn is_hex_color(s: Seq<char>) -> bool {
    let t = strip_hash(s);
    t.len() == 6 && forall|i: int| 0 <= i < 6 ==> is_hex_digit(#[trigger] t[i])
}

/// The color that a hex string denotes.
pub open spec fn hex_color(s: Seq<char>) -> Option<Color> {
    let t = strip_hash(s);
    if is_hex_color(s) {
        Some(Color::Rgb(hex_byte(t, 0), hex_byte(t, 2), hex_byte(t, 4)))
    } else {
        None
    }
}

fn hex_digit(c: char) -> (r: Option<u8>)
    ensures
        r == (if is_hex_digit(c) {
            Some(hex_digit_value(c) as u8)
        } else {
            None
        }),
{
    if '0' <= c && c <= '9' {
        Some(((c as u32) - ('0' as u32)) as u8)
    } else if 'a' <= c && c <= 'f' {
        Some(((c as u32) - ('a' as u32) + 10) as u8)
    } else if 'A' <= c && c <= 'F' {
        Some(((c as u32) - ('A' as u32) + 10) as u8)
    } else {
        None
    }
}

impl Color {
    /// Parses six hex digits, optionally preceded by `#`, as an RGB color.
    pub fn from_hex(hex: &str) -> (r: Option<Color>)
        ensures
            r == hex_color(hex@),
    {
        let n = hex.unicode_len();
        let mut start: usize = 0;
        if n > 0 && hex.get_char(0) == '#' {
            start = 1;
        }
        proof {
            let t = strip_hash(hex@);
            assert(t =~= hex@.subrange(start as int, n as int));
        }
        if n - start != 6 {
            return None;
        }
        let mut digits: Vec<u8> = Vec::new();
        let mut i: usize = 0;
        while i < 6
            invariant
                n == hex@.len(),
                n - start == 6,
                strip_hash(hex@) =~= hex@.subrange(start as int, n as int),
                i <= 6,
                digits@.len() == i,
                forall|j: int| 0 <= j < i ==> is_hex_digit(#[trigger] strip_hash(hex@)[j]),
                forall|j: int| 0 <= j < i ==> digits@[j] == hex_digit_value(strip_hash(hex@)[j]),
            decreases 6 - i,
        {
            match hex_digit(hex.get_char(start + i)) {
                Some(d) => digits.push(d),
                None => {
                    return None;
                },
            }
            i += 1;
        }
        let r = digits[0] * 16 + digits[1];
        let g = digits[2] * 16 + digits[3];
        let b = digits[4] * 16 + digits[5];
        Some(Color::Rgb(r, g, b))
    }

    fn push_code(&self, s: &mut String, lead: char, named_offset: u32)
        requires
            named_offset == 0 || named_offset == 10,
        ensures
            final(s)@ == old(s)@ + color_code(*self, lead, named_offset as nat),
    {
        match self {
            Color::Indexed(i) => {
                push_char(s, lead);
                push_char(s, '8');
                push_char(s, ';');
                push_char(s, '5');
                push_char(s, ';');
                push_decimal(s, *i as u32);
            },
            Color::Rgb(r, g, b) => {
                push_char(s, lead);
                push_char(s, '8');
                push_char(s, ';');
                push_char(s, '2');
                push_char(s, ';');
                push_decimal(s, *r as u32);
                push_char(s, ';');
                push_decimal(s, *g as u32);
                push_char(s, ';');
                push_decimal(s, *b as u32);
            },
            _ => {
                let base: u32 = match self {
                    Color::Reset => 39,
                    Color::Black => 30,
                    Color::Red => 31,
                    Color::Green => 32,
                    Color::Yellow => 33,
                    Color::Blue => 34,
                    Color::Magenta => 35,
                    Color::Cyan => 36,
                    Color::White => 37,
                    Color::BrightBlack => 90,
                    Color::BrightRed => 91,
                    Color::BrightGreen => 92,
                    Color::BrightYellow => 93,
                    Color::BrightBlue => 94,
                    Color::BrightMagenta => 95,
                    Color::BrightCyan => 96,
                    _ => 97,
                };
                push_decimal(s, base + named_offset);
            },
        }
        assert(final(s)@ =~= old(s)@ + color_code(*self, lead, named_offset as nat));
    }

    /// The SGR parameters that select this color as foreground.
    pub fn to_ansi_fg(&self) -> (r: String)
        ensures
            r@ == fg_code(*self),
    {
        let mut s = String::new();
        self.push_code(&mut s, '3', 0);
        assert(s@ =~= fg_code(*self));
        s
    }

    /// The SGR parameters that select this color as background.
    pub fn to_ansi_bg(&self) -> (r: String)
        ensures
            r@ == bg_code(*self),
    {
        let mut s = String::new();
        self.push_code(&mut s, '4', 10);
        assert(s@ =~= bg_code(*self));
        s
    }
}

/// A bit set of text modifiers.
#[derive(Debug, Clone, Copy, PartialEq, Eq, Structural)]
pub struct Modifier(pub u16);

impl Modifier {
    /// The modifier for bold text.
    pub fn bold() -> (r: Modifier)
        ensures
            r.0 == 1,
    {
        Modifier(1)
    }

    /// The modifier for italic text.
    pub fn italic() -> (r: Modifier)
        ensures
            r.0 == 2,
    {
        Modifier(2)
    }

    /// The modifier for underlined text.
    pub fn underline() -> (r: Modifier)
        ensures
            r.0 == 4,
    {
        Modifier(4)
    }

    /// The modifier for swapped foreground and background.
    pub fn reversed() -> (r: Modifier)
        ensures
            r.0 == 8,
    {
        Modifier(8)
    }

    /// The modifier for faint text.
    pub fn dim() -> (r: Modifier)
        ensures
            r.0 == 16,
    {
        Modifier(16)
    }

    /// The set with no modifier.
    pub fn empty() -> (r: Modifier)
        ensures
            r.0 == 0,
    {
        Modifier(0)
    }

    /// Whether every modifier of `other` is in this set.
    pub fn contains(self, other: Modifier) -> (r: bool)
        ensures
            r == (self.0 & other.0 == other.0),
    {
        (self.0 & other.0) == other.0
    }

    /// Adds the modifiers of `other` to this set.
    pub fn insert(&mut self, other: Modifier)
        ensures
            final(self).0 == old(self).0 | other.0,
    {
        self.0 = self.0 | other.0;
    }
}

impl Default for Modifier {
    fn default() -> (r: Modifier)
        ensures
            r.0 == 0,
    {
        Modifier(0)
    }
}

impl core::ops::BitOr for Modifier {
    type Output = Modifier;

    fn bitor(self, rhs: Modifier) -> Modifier {
        Modifier(self.0 | rhs.0)
    }
}

impl vstd::std_specs::ops::BitOrSpecImpl for Modifier {
    open spec fn obeys_bitor_spec() -> bool {
        true
    }

    open spec fn bitor_req(self, rhs: Modifier) -> bool {
        true
    }

    open spec fn bitor_spec(self, rhs: Modifier) -> Modifier {
        Modifier(self.0 | rhs.0)
    }
}

/// The visual style of a cell.
#[derive(Debug, Clone, Copy, PartialEq, Eq, Structural)]
pub struct Style {
    pub foreground: Option<Color>,
    pub background: Option<Color>,
    pub modifiers: Modifier,
}

/// The style with no colors and no modifiers.
pub open spec fn plain_style() -> Style {
    Style { foreground: None, background: None, modifiers: Modifier(0) }
}

/// `;` and the code, when the color is set.
pub open spec fn optional_code(c: Option<Color>, lead: char, named_offset: nat) -> Seq<char> {
    match c {
        Some(c) => seq![';'] + color_code(c, lead, named_offset),
        None => seq![],
    }
}

/// `;` and the digit, when `m` holds the modifier `flag`.
pub open spec fn modifier_code(m: Modifier, flag: u16, digit: char) -> Seq<char> {
    if m.0 & flag == flag {
        seq![';', digit]
    } else {
        seq![]
    }
}

/// The full SGR sequence of a style: reset, foreground, background, then
/// bold, dim, italic, underline and reversed.
pub open spec fn style_sequence(s: Style) -> Seq<char> {
    seq!['\u{1b}', '[', '0'] + optional_code(s.foreground, '3', 0) + optional_code(
        s.background,
        '4',
        10,
    ) + modifier_code(s.modifiers, 1, '1') + modifier_code(s.modifiers, 16, '2')
        + modifier_code(s.modifiers, 2, '3') + modifier_code(s.modifiers, 4, '4')
        + modifier_code(s.modifiers, 8, '7') + seq!['m']
}

impl Default for Style {
    fn default() -> (r: Style)
        ensures
            r == plain_style(),
    {
        Style::new()
    }
}

fn push_modifier(s: &mut String, m: Modifier, flag: Modifier, digit: char)
    ensures
        final(s)@ == old(s)@ + modifier_code(m, flag.0, digit),
{
    if m.contains(flag) {
        push_char(s, ';');
        push_char(s, digit);
    }
    assert(final(s)@ =~= old(s)@ + modifier_code(m, flag.0, digit));
}

impl Style {
    /// The style with no colors and no modifiers.
    pub fn new() -> (r: Style)
        ensures
            r == plain_style(),
    {
        Style { foreground: None, background: None, modifiers: Modifier(0) }
    }

    /// This style with the given foreground color.
    pub fn fg(self, color: Color) -> (r: Style)
        ensures
            r == (Style { foreground: Some(color), ..self }),
    {
        Style { foreground: Some(color), ..self }
    }

    /// This style with the given background color.
    pub fn bg(self, color: Color) -> (r: Style)
        ensures
            r == (Style { background: Some(color), ..self }),
    {
        Style { background: Some(color), ..self }
    }

    /// This style with the modifiers of `modifier` added.
    pub fn modifier(self, modifier: Modifier) -> (r: Style)
        ensures
            r == (Style { modifiers: Modifier(self.modifiers.0 | modifier.0), ..self }),
    {
        let mut r = self;
        r.modifiers.insert(modifier);
        r
    }

    /// The escape sequence that sets this style on a terminal.
    pub fn to_ansi(&self) -> (r: String)
        ensures
            r@ == style_sequence(*self),
    {
        let mut s = String::new();
        push_char(&mut s, '\u{1b}');
        push_char(&mut s, '[');
        push_char(&mut s, '0');
        if let Some(fg) = self.foreground {
            push_char(&mut s, ';');
            fg.push_code(&mut s, '3', 0);
        }
        if let Some(bg) = self.background {
            push_char(&mut s, ';');
            bg.push_code(&mut s, '4', 10);
        }
        push_modifier(&mut s, self.modifiers, Modifier::bold(), '1');
        push_modifier(&mut s, self.modifiers, Modifier::dim(), '2');
        push_modifier(&mut s, self.modifiers, Modifier::italic(), '3');
        push_modifier(&mut s, self.modifiers, Modifier::underline(), '4');
        push_modifier(&mut s, self.modifiers, Modifier::reversed(), '7');
        push_char(&mut s, 'm');
        assert(s@ =~= style_sequence(*self));
        s
    }
}

} // verus!
