//! Decoding of the terminal's byte stream into input events.
//!
//! [`Parser`] keeps the bytes that do not yet form a whole event, so a key
//! sequence split across reads still decodes as one event. [`Input`] holds the
//! decisions of one read cycle: when to poll for more bytes and when to give up
//! on an ambiguous lone escape byte.
use vstd::prelude::*;
use vstd::utf8::*;
use vstd::string::*;
use std::collections::VecDeque;

verus! {

/// An input event.
#[derive(Debug, Clone, Copy, PartialEq, Eq, Structural)]
pub enum Event {
    /// A key press.
    Key(KeyEvent),
    /// A mouse click or scroll.
    Mouse(MouseEvent),
    /// A new terminal size (columns, rows).
    Resize(u16, u16),
}

/// A mouse event at 0-based coordinates.
#[derive(Debug, Clone, Copy, PartialEq, Eq, Structural)]
pub struct MouseEvent {
    pub x: u16,
    pub y: u16,
    pub kind: MouseKind,
}

impl MouseEvent {
    /// A mouse event of the given kind at the coordinates.
    pub fn new(x: u16, y: u16, kind: MouseKind) -> (r: MouseEvent)
        ensures
            r == (MouseEvent { x, y, kind }),
    {
        MouseEvent { x, y, kind }
    }
}

/// The kind of a mouse action.
#[derive(Debug, Clone, Copy, PartialEq, Eq, Structural)]
pub enum MouseKind {
    LeftClick,
    RightClick,
    MiddleClick,
    ScrollUp,
    ScrollDown,
    Other,
}

/// A key press with the modifiers held.
#[derive(Debug, Clone, Copy, PartialEq, Eq, Structural)]
pub struct KeyEvent {
    pub code: KeyCode,
    pub modifiers: KeyModifiers,
}

impl KeyEvent {
    /// A key press with no modifiers.
    pub fn new(code: KeyCode) -> (r: KeyEvent)
        ensures
            r == key(code),
    {
        KeyEvent { code, modifiers: KeyModifiers::empty() }
    }

    /// A key press with the given modifiers.
    pub fn with_modifiers(code: KeyCode, modifiers: KeyModifiers) -> (r: KeyEvent)
        ensures
            r == (KeyEvent { code, modifiers }),
    {
        KeyEvent { code, modifiers }
    }
}

/// The key of a key event.
#[derive(Debug, Clone, Copy, PartialEq, Eq, Structural)]
pub enum KeyCode {
    /// A character key.
    Char(char),
    Enter,
    Backspace,
    Esc,
    Left,
    Right,
    Up,
    Down,
    Tab,
    Delete,
    Home,
    End,
    PageUp,
    PageDown,
    /// A function key.
    F(u8),
    Null,
}

/// A bit set of the Shift, Ctrl and Alt modifiers.
#[derive(Debug, Clone, Copy, PartialEq, Eq, Structural)]
pub struct KeyModifiers(pub u8);

impl KeyModifiers {
    /// The Shift modifier.
    pub fn shift() -> (r: KeyModifiers)
        ensures
            r.0 == 1,
    {
        KeyModifiers(1)
    }

    /// The Ctrl modifier.
    pub fn ctrl() -> (r: KeyModifiers)
        ensures
            r.0 == 2,
    {
        KeyModifiers(2)
    }

    /// The Alt modifier.
    pub fn alt() -> (r: KeyModifiers)
        ensures
            r.0 == 4,
    {
        KeyModifiers(4)
    }

    /// The set with no modifier.
    pub fn empty() -> (r: KeyModifiers)
        ensures
            r.0 == 0,
    {
        KeyModifiers(0)
    }

    /// Whether every modifier of `other` is in this set.
    pub fn contains(self, other: KeyModifiers) -> (r: bool)
        ensures
            r == (self.0 & other.0 == other.0),
    {
        (self.0 & other.0) == other.0
    }

    /// Adds the modifiers of `other` to this set.
    pub fn insert(&mut self, other: KeyModifiers)
        ensures
            final(self).0 == old(self).0 | other.0,
    {
        self.0 = self.0 | other.0;
    }
}

impl core::ops::BitOr for KeyModifiers {
    type Output = KeyModifiers;

    fn bitor(self, rhs: KeyModifiers) -> KeyModifiers {
        KeyModifiers(self.0 | rhs.0)
    }
}

impl vstd::std_specs::ops::BitOrSpecImpl for KeyModifiers {
    open spec fn obeys_bitor_spec() -> bool {
        true
    }

    open spec fn bitor_req(self, rhs: KeyModifiers) -> bool {
        true
    }

    open spec fn bitor_spec(self, rhs: KeyModifiers) -> KeyModifiers {
        KeyModifiers(self.0 | rhs.0)
    }
}

/// A key press without modifiers.
pub open spec fn key(code: KeyCode) -> KeyEvent {
    KeyEvent { code, modifiers: KeyModifiers(0) }
}

/// The key event of `code`, as an event.
pub open spec fn key_event(code: KeyCode) -> Event {
    Event::Key(key(code))
}

/// The kind of an X10 mouse report, from its button byte.
pub open spec fn mouse_kind(button: u8) -> MouseKind {
    let b = if button >= 32 {
        button - 32
    } else {
        0
    };
    if b == 0 {
        MouseKind::LeftClick
    } else if b == 1 {
        MouseKind::MiddleClick
    } else if b == 2 {
        MouseKind::RightClick
    } else if b == 64 {
        MouseKind::ScrollUp
    } else if b == 65 {
        MouseKind::ScrollDown
    } else {
        MouseKind::Other
    }
}

/// A coordinate of an X10 mouse report: the byte less 33, at least 0.
pub open spec fn mouse_coordinate(byte: u8) -> u16 {
    if byte >= 33 {
        (byte - 33) as u16
    } else {
        0
    }
}

/// The length of the UTF-8 sequence that a leading byte starts; 0 when the
/// byte cannot start one.
pub open spec fn utf8_width(b: u8) -> usize {
    if b & 0x80 == 0 {
        1
    } else if b & 0xe0 == 0xc0 {
        2
    } else if b & 0xf0 == 0xe0 {
        3
    } else if b & 0xf8 == 0xf0 {
        4
    } else {
        0
    }
}

/// The outcome of decoding the front of the pending bytes.
#[derive(Debug, Clone, Copy, PartialEq, Eq, Structural)]
pub enum Decoded {
    /// The front is the start of a longer sequence: wait for more bytes.
    Incomplete,
    /// An event, made of the given number of bytes.
    Emit(Event, usize),
    /// The given number of bytes form no event and are dropped.
    Discard(usize),
}

pub const ESC: u8 = 0x1b;

/// How the front of the non-empty byte sequence `q` decodes.
pub open spec fn decode_step(q: Seq<u8>) -> Decoded {
    let b = q[0];
    if b == 13 {
        Decoded::Emit(key_event(KeyCode::Enter), 1)
    } else if b == ESC {
        if q.len() == 1 {
            Decoded::Incomplete
        } else if q[1] == 91 {
            if q.len() < 3 {
                Decoded::Incomplete
            } else if q[2] == 65 {
                Decoded::Emit(key_event(KeyCode::Up), 3)
            } else if q[2] == 77 {
                if q.len() < 6 {
                    Decoded::Incomplete
                } else {
                    Decoded::Emit(
                        Event::Mouse(
                            MouseEvent {
                                x: mouse_coordinate(q[4]),
                                y: mouse_coordinate(q[5]),
                                kind: mouse_kind(q[3]),
                            },
                        ),
                        6,
                    )
                }
            } else {
                Decoded::Emit(key_event(KeyCode::Esc), 1)
            }
        } else {
            Decoded::Emit(key_event(KeyCode::Esc), 1)
        }
    } else {
        let w = utf8_width(b);
        if w == 0 {
            Decoded::Discard(1)
        } else if q.len() < w {
            Decoded::Incomplete
        } else if valid_utf8(q.subrange(0, w as int)) {
            Decoded::Emit(key_event(KeyCode::Char(decode_utf8(q.subrange(0, w as int))[0])), w)
        } else {
            Decoded::Discard(w)
        }
    }
}

proof fn lemma_step_consumes(q: Seq<u8>)
    requires
        q.len() > 0,
    ensures
        match decode_step(q) {
            Decoded::Emit(_, n) => 1 <= n <= q.len(),
            Decoded::Discard(n) => 1 <= n <= q.len(),
            Decoded::Incomplete => true,
        },
{
}

/// The events that the bytes `q` decode to, and the bytes left waiting for
/// more input.
pub open spec fn decode_all(q: Seq<u8>) -> (Seq<Event>, Seq<u8>)
    decreases q.len(),
{
    if q.len() == 0 {
        (seq![], seq![])
    } else {
        match decode_step(q) {
            Decoded::Incomplete => (seq![], q),
            Decoded::Emit(e, n) => if 1 <= n <= q.len() {
                let rest = decode_all(q.subrange(n as int, q.len() as int));
                (seq![e] + rest.0, rest.1)
            } else {
                (seq![], q)
            },
            Decoded::Discard(n) => if 1 <= n <= q.len() {
                decode_all(q.subrange(n as int, q.len() as int))
            } else {
                (seq![], q)
            },
        }
    }
}

/// The length of the UTF-8 sequence that a leading byte starts; 0 when the
/// byte cannot start one.
fn utf8_char_width(first_byte: u8) -> (r: usize)
    ensures
        r == utf8_width(first_byte),
{
    if first_byte & 0b1000_0000 == 0 {
        1
    } else if first_byte & 0b1110_0000 == 0b1100_0000 {
        2
    } else if first_byte & 0b1111_0000 == 0b1110_0000 {
        3
    } else if first_byte & 0b1111_1000 == 0b1111_0000 {
        4
    } else {
        0
    }
}

/// Relies on `std::str::from_utf8`: it accepts exactly the well-formed UTF-8
/// byte sequences, and the text it gives holds the characters they encode.
#[verifier::external_body]
fn utf8_text(bytes: &[u8]) -> (r: Option<&str>)
    ensures
        r.is_some() == valid_utf8(bytes@),
        r matches Some(s) ==> s@ == decode_utf8(bytes@),
{
    std::str::from_utf8(bytes).ok()
}

/// The decoder of a terminal's byte stream.
pub struct Parser {
    buffer: VecDeque<u8>,
}

impl View for Parser {
    type V = Seq<u8>;

    /// The bytes received and not yet decoded.
    closed spec fn view(&self) -> Seq<u8> {
        self.buffer@
    }
}

impl Default for Parser {
    fn default() -> (r: Parser)
        ensures
            r@ == Seq::<u8>::empty(),
    {
        Parser::new()
    }
}

impl Parser {
    /// A parser holding no bytes.
    pub fn new() -> (r: Parser)
        ensures
            r@ == Seq::<u8>::empty(),
    {
        Parser { buffer: VecDeque::new() }
    }

    /// How the front of the held bytes decodes.
    fn front(&self) -> (r: Decoded)
        requires
            self@.len() > 0,
        ensures
            r == decode_step(self@),
    {
        let b = self.buffer[0];
        let len = self.buffer.len();
        if b == 13u8 {
            Decoded::Emit(Event::Key(KeyEvent::new(KeyCode::Enter)), 1)
        } else if b == ESC {
            if len == 1 {
                Decoded::Incomplete
            } else if self.buffer[1] == 91u8 {
                if len < 3 {
                    Decoded::Incomplete
                } else if self.buffer[2] == 65u8 {
                    Decoded::Emit(Event::Key(KeyEvent::new(KeyCode::Up)), 3)
                } else if self.buffer[2] == 77u8 {
                    if len < 6 {
                        Decoded::Incomplete
                    } else {
                        let cb = self.buffer[3];
                        let cx = self.buffer[4];
                        let cy = self.buffer[5];
                        let button: u8 = if cb >= 32 { cb - 32 } else { 0 };
                        let kind = if button == 0 {
                            MouseKind::LeftClick
                        } else if button == 1 {
                            MouseKind::MiddleClick
                        } else if button == 2 {
                            MouseKind::RightClick
                        } else if button == 64 {
                            MouseKind::ScrollUp
                        } else if button == 65 {
                            MouseKind::ScrollDown
                        } else {
                            MouseKind::Other
                        };
                        let x: u16 = if cx >= 33 { (cx - 33) as u16 } else { 0 };
                        let y: u16 = if cy >= 33 { (cy - 33) as u16 } else { 0 };
                        Decoded::Emit(Event::Mouse(MouseEvent::new(x, y, kind)), 6)
                    }
                } else {
                    Decoded::Emit(Event::Key(KeyEvent::new(KeyCode::Esc)), 1)
                }
            } else {
                Decoded::Emit(Event::Key(KeyEvent::new(KeyCode::Esc)), 1)
            }
        } else {
            let width = utf8_char_width(b);
            if width == 0 {
                Decoded::Discard(1)
            } else if len < width {
                Decoded::Incomplete
            } else {
                let mut bytes: Vec<u8> = Vec::new();
                let mut j: usize = 0;
                while j < width
                    invariant
                        j <= width,
                        width <= len,
                        len == self@.len(),
                        bytes@ == self@.subrange(0, j as int),
                    decreases width - j,
                {
                    bytes.push(self.buffer[j]);
                    assert(bytes@ =~= self@.subrange(0, j + 1));
                    j += 1;
                }
                match utf8_text(bytes.as_slice()) {
                    Some(s) => {
                        let c = s.get_char(0);
                        Decoded::Emit(Event::Key(KeyEvent::new(KeyCode::Char(c))), width)
                    },
                    None => Decoded::Discard(width),
                }
            }
        }
    }

    /// Removes `n` bytes from the front of the held bytes.
    fn consume(&mut self, n: usize)
        requires
            n <= old(self)@.len(),
        ensures
            final(self)@ == old(self)@.subrange(n as int, old(self)@.len() as int),
    {
        let mut i: usize = 0;
        while i < n
            invariant
                i <= n,
                n <= old(self)@.len(),
                self@ == old(self)@.subrange(i as int, old(self)@.len() as int),
            decreases n - i,
        {
            self.buffer.pop_front();
            assert(self@ =~= old(self)@.subrange(i + 1, old(self)@.len() as int));
            i += 1;
        }
    }

    /// Appends `bytes` to the held bytes and decodes every whole event at the
    /// front; what remains is empty or the start of an unfinished sequence.
    pub fn parse(&mut self, bytes: &[u8]) -> (r: Vec<Event>)
        ensures
            (r@, final(self)@) == decode_all(old(self)@ + bytes@),
    {
        let mut i: usize = 0;
        while i < bytes.len()
            invariant
                i <= bytes@.len(),
                self@ == old(self)@ + bytes@.subrange(0, i as int),
            decreases bytes@.len() - i,
        {
            self.buffer.push_back(bytes[i]);
            assert(self@ =~= old(self)@ + bytes@.subrange(0, i + 1));
            i += 1;
        }
        assert(bytes@.subrange(0, bytes@.len() as int) =~= bytes@);
        let ghost total = self@;
        let mut events: Vec<Event> = Vec::new();
        loop
            invariant
                events@ + decode_all(self@).0 == decode_all(total).0,
                decode_all(self@).1 == decode_all(total).1,
            ensures
                events@ == decode_all(total).0,
                self@ == decode_all(total).1,
            decreases self@.len(),
        {
            if self.buffer.len() == 0 {
                assert(events@ =~= events@ + decode_all(self@).0);
                assert(self@ =~= decode_all(self@).1);
                break;
            }
            proof {
                lemma_step_consumes(self@);
            }
            match self.front() {
                Decoded::Incomplete => {
                    assert(events@ =~= events@ + decode_all(self@).0);
                    assert(self@ =~= decode_all(self@).1);
                    break;
                },
                Decoded::Emit(e, n) => {
                    let ghost before = self@;
                    let ghost earlier = events@;
                    events.push(e);
                    self.consume(n);
                    assert(decode_all(before).0 == seq![e] + decode_all(self@).0);
                    assert(events@ + decode_all(self@).0 =~= earlier + decode_all(before).0);
                },
                Decoded::Discard(n) => {
                    self.consume(n);
                },
            }
        }
        events
    }

    /// Whether bytes are held that form no event yet.
    pub fn has_pending_state(&self) -> (r: bool)
        ensures
            r == (self@.len() > 0),
    {
        self.buffer.len() > 0
    }

    /// Gives up waiting on the held bytes: a leading escape byte becomes one
    /// Esc event, and every held byte is dropped.
    pub fn finish_incomplete(&mut self) -> (r: Vec<Event>)
        ensures
            r@ == (if old(self)@.len() > 0 && old(self)@[0] == ESC {
                seq![key_event(KeyCode::Esc)]
            } else {
                Seq::<Event>::empty()
            }),
            final(self)@ == Seq::<u8>::empty(),
    {
        let mut events: Vec<Event> = Vec::new();
        if self.buffer.len() > 0 && self.buffer[0] == ESC {
            events.push(Event::Key(KeyEvent::new(KeyCode::Esc)));
        }
        self.buffer.clear();
        assert(events@ =~= (if old(self)@.len() > 0 && old(self)@[0] == ESC {
            seq![key_event(KeyCode::Esc)]
        } else {
            Seq::<Event>::empty()
        }));
        events
    }
}

proof fn lemma_step_extends(q: Seq<u8>, more: Seq<u8>)
    requires
        q.len() > 0,
        decode_step(q) != Decoded::Incomplete,
    ensures
        decode_step(q + more) == decode_step(q),
{
    let w = utf8_width(q[0]);
    assert((q + more)[0] == q[0]);
    if q.len() > 1 {
        assert((q + more)[1] == q[1]);
    }
    if q.len() > 2 {
        assert((q + more)[2] == q[2]);
    }
    if q.len() > 5 {
        assert((q + more)[3] == q[3]);
        assert((q + more)[4] == q[4]);
        assert((q + more)[5] == q[5]);
    }
    if w <= q.len() {
        assert((q + more).subrange(0, w as int) =~= q.subrange(0, w as int));
    }
}

/// Decoding is indifferent to where the input is cut: decoding `a`, then
/// decoding what was left together with `b`, gives the events and the leftover
/// of decoding `a` and `b` at once.
pub proof fn lemma_decode_append(a: Seq<u8>, b: Seq<u8>)
    ensures
        decode_all(a).0 + decode_all(decode_all(a).1 + b).0 == decode_all(a + b).0,
        decode_all(decode_all(a).1 + b).1 == decode_all(a + b).1,
    decreases a.len(),
{
    if a.len() == 0 {
        assert(a + b =~= b);
        assert(decode_all(a).1 + b =~= b);
        assert(decode_all(a).0 + decode_all(b).0 =~= decode_all(b).0);
    } else {
        lemma_step_consumes(a);
        match decode_step(a) {
            Decoded::Incomplete => {
                assert(decode_all(a).0 + decode_all(a + b).0 =~= decode_all(a + b).0);
            },
            Decoded::Emit(e, n) => {
                lemma_step_extends(a, b);
                let tail = a.subrange(n as int, a.len() as int);
                assert((a + b).subrange(n as int, (a + b).len() as int) =~= tail + b);
                lemma_decode_append(tail, b);
                assert(decode_all(a).0 + decode_all(decode_all(a).1 + b).0 =~= seq![e] + (
                decode_all(tail).0 + decode_all(decode_all(tail).1 + b).0));
            },
            Decoded::Discard(n) => {
                lemma_step_extends(a, b);
                let tail = a.subrange(n as int, a.len() as int);
                assert((a + b).subrange(n as int, (a + b).len() as int) =~= tail + b);
                lemma_decode_append(tail, b);
            },
        }
    }
}

/// Feeding a parser `a` and then `b` yields, over the two calls, the events
/// and the held bytes that feeding it `a` and `b` in one call yields.
pub proof fn lemma_parse_in_two_calls(held: Seq<u8>, a: Seq<u8>, b: Seq<u8>)
    ensures
        decode_all(held + a).0 + decode_all(decode_all(held + a).1 + b).0 == decode_all(
            held + (a + b),
        ).0,
        decode_all(decode_all(held + a).1 + b).1 == decode_all(held + (a + b)).1,
{
    lemma_decode_append(held + a, b);
    assert(held + a + b =~= held + (a + b));
}

/// How long a read cycle waits for the rest of an unfinished sequence.
pub const POLL_TIMEOUT_MS: u64 = 50;

/// The most bytes taken from the device in one read.
pub const READ_CHUNK: usize = 1024;

/// What a read cycle does next.
#[derive(Debug, Clone, Copy, PartialEq, Eq, Structural)]
pub enum ReadStep {
    /// Read from the device and hand the bytes to [`Input::on_read`].
    Read,
    /// Poll the device for readability and hand the answer to [`Input::on_poll`].
    Poll,
    /// The cycle is over.
    Done,
}

/// The decisions of a read cycle: a cycle starts with a blocking read, polls
/// while bytes are held that form no event yet, and on a poll that finds
/// nothing gives up on the held bytes.
pub struct Input {
    parser: Parser,
}

impl View for Input {
    type V = Seq<u8>;

    /// The bytes received and not yet decoded.
    closed spec fn view(&self) -> Seq<u8> {
        self.parser@
    }
}

impl Default for Input {
    fn default() -> (r: Input)
        ensures
            r@ == Seq::<u8>::empty(),
    {
        Input::new()
    }
}

impl Input {
    /// An input handler holding no bytes.
    pub fn new() -> (r: Input)
        ensures
            r@ == Seq::<u8>::empty(),
    {
        Input { parser: Parser::new() }
    }

    /// Takes the bytes of a read (none on end of input or a failed read):
    /// returns the events decoded, and a poll while bytes are held, else done.
    pub fn on_read(&mut self, bytes: &[u8]) -> (r: (Vec<Event>, ReadStep))
        ensures
            (r.0@, final(self)@) == decode_all(old(self)@ + bytes@),
            r.1 == (if final(self)@.len() > 0 {
                ReadStep::Poll
            } else {
                ReadStep::Done
            }),
    {
        let events = self.parser.parse(bytes);
        if self.parser.has_pending_state() {
            (events, ReadStep::Poll)
        } else {
            (events, ReadStep::Done)
        }
    }

    /// Takes the answer of a poll (false on a timeout or a failed poll): when
    /// data is ready, a read comes next; else the held bytes are given up.
    pub fn on_poll(&mut self, ready: bool) -> (r: (Vec<Event>, ReadStep))
        ensures
            ready ==> r.0@ == Seq::<Event>::empty() && r.1 == ReadStep::Read && final(self)@
                == old(self)@,
            !ready ==> r.0@ == (if old(self)@.len() > 0 && old(self)@[0] == ESC {
                seq![key_event(KeyCode::Esc)]
            } else {
                Seq::<Event>::empty()
            }) && r.1 == ReadStep::Done && final(self)@ == Seq::<u8>::empty(),
    {
        if ready {
            (Vec::new(), ReadStep::Read)
        } else {
            (self.parser.finish_incomplete(), ReadStep::Done)
        }
    }
}

} // verus!
