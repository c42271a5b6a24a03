//! The writes that bring a terminal from the last frame shown to the next.
use vstd::prelude::*;
use crate::buffer::{Buffer, Change, Cell, diff_of, same_size, diff_prefix, change_at};
use crate::style::{decimal, style_sequence, push_char, push_decimal};

verus! {

/// The escape sequence that clears the screen.
pub open spec fn clear_sequence() -> Seq<char> {
    seq!['\u{1b}', '[', '2', 'J']
}

/// The escape sequence that moves the cursor to the cell of `c` (1-based).
pub open spec fn cursor_sequence(c: Change) -> Seq<char> {
    seq!['\u{1b}', '['] + decimal(c.y as nat + 1) + seq![';'] + decimal(c.x as nat + 1) + seq![
        'H',
    ]
}

/// The writes that show the first `n` changes: for each, a cursor move, the
/// cell's style, and the cell's character.
pub open spec fn change_writes(cs: Seq<Change>, n: int) -> Seq<Seq<char>>
    decreases n,
{
    if n <= 0 {
        seq![]
    } else {
        let c = cs[n - 1];
        change_writes(cs, n - 1) + seq![
            cursor_sequence(c),
            style_sequence(c.cell.style),
            seq![c.cell.symbol],
        ]
    }
}

/// The writes that replace the frame `held` by `next` on screen: a clear when
/// the sizes differ, then the writes for `next.diff(held)`.
pub open spec fn frame_writes(held: Buffer, next: Buffer) -> Seq<Seq<char>> {
    let cs = diff_of(next, held);
    (if same_size(next, held) {
        Seq::<Seq<char>>::empty()
    } else {
        seq![clear_sequence()]
    }) + change_writes(cs, cs.len() as int)
}

/// Whether two buffers hold the same size and cells.
pub open spec fn same_buffer(a: Buffer, b: Buffer) -> bool {
    a.width == b.width && a.height == b.height && a.content@ == b.content@
}

/// The text of each string.
pub open spec fn texts(v: Seq<String>) -> Seq<Seq<char>> {
    v.map_values(|s: String| s@)
}

/// Once a frame is shown, rendering the same frame again writes nothing.
pub proof fn lemma_render_again_writes_nothing(shown: Buffer, next: Buffer)
    requires
        same_buffer(shown, next),
    ensures
        frame_writes(shown, next) == Seq::<Seq<char>>::empty(),
{
    crate::buffer::lemma_diff_same_cells(next, shown);
    assert(frame_writes(shown, next) =~= Seq::<Seq<char>>::empty());
}

/// Keeps the last frame shown and computes what to write for the next one.
pub struct Renderer {
    current_buffer: Buffer,
}

impl Renderer {
    /// The frame last shown.
    pub closed spec fn shown(&self) -> Buffer {
        self.current_buffer
    }

    /// A renderer whose screen shows a blank frame of the given size.
    pub fn new(width: u16, height: u16) -> (r: Renderer)
        ensures
            r.shown().wf(),
            r.shown().width == width,
            r.shown().height == height,
            forall|i: int|
                0 <= i < r.shown().content@.len() ==> r.shown().content@[i]
                    == crate::buffer::blank_cell(),
    {
        Renderer { current_buffer: Buffer::new(width, height) }
    }

    /// The writes, in order, that show `next` in place of the frame last
    /// shown; `next` becomes the frame shown.
    pub fn render(&mut self, next: &Buffer) -> (r: Vec<String>)
        requires
            old(self).shown().wf(),
            next.wf(),
        ensures
            texts(r@) == frame_writes(old(self).shown(), *next),
            final(self).shown().wf(),
            same_buffer(final(self).shown(), *next),
    {
        let mut writes: Vec<String> = Vec::new();
        if next.width != self.current_buffer.width || next.height != self.current_buffer.height {
            let mut clear = String::new();
            push_char(&mut clear, '\u{1b}');
            push_char(&mut clear, '[');
            push_char(&mut clear, '2');
            push_char(&mut clear, 'J');
            assert(clear@ =~= clear_sequence());
            writes.push(clear);
            assert(texts(writes@)[0] == clear@);
            assert(texts(writes@) =~= seq![clear_sequence()]);
        } else {
            assert(texts(writes@) =~= Seq::<Seq<char>>::empty());
        }
        let ghost lead = texts(writes@);
        assert(lead == (if same_size(*next, old(self).shown()) {
            Seq::<Seq<char>>::empty()
        } else {
            seq![clear_sequence()]
        }));
        let changes = next.diff(&self.current_buffer);
        let n = changes.len();
        let mut i: usize = 0;
        while i < n
            invariant
                n == changes@.len(),
                i <= n,
                texts(writes@) == lead + change_writes(changes@, i as int),
            decreases n - i,
        {
            let c = changes[i];
            let mut cursor = String::new();
            push_char(&mut cursor, '\u{1b}');
            push_char(&mut cursor, '[');
            push_decimal(&mut cursor, c.y as u32 + 1);
            push_char(&mut cursor, ';');
            push_decimal(&mut cursor, c.x as u32 + 1);
            push_char(&mut cursor, 'H');
            let style = c.cell.style.to_ansi();
            let mut symbol = String::new();
            push_char(&mut symbol, c.cell.symbol);
            let ghost prev = writes@;
            writes.push(cursor);
            writes.push(style);
            writes.push(symbol);
            assert(cursor@ =~= cursor_sequence(c));
            assert(texts(writes@) =~= texts(prev) + seq![cursor@, style@, symbol@]);
            assert(texts(writes@) =~= lead + change_writes(changes@, i + 1));
            i += 1;
        }
        self.current_buffer = copy_buffer(next);
        writes
    }
}

/// A copy of `b`.
fn copy_buffer(b: &Buffer) -> (r: Buffer)
    ensures
        same_buffer(r, *b),
{
    let mut content: Vec<Cell> = Vec::new();
    let n = b.content.len();
    let mut i: usize = 0;
    while i < n
        invariant
            n == b.content@.len(),
            i <= n,
            content@ == b.content@.subrange(0, i as int),
        decreases n - i,
    {
        content.push(b.content[i]);
        assert(content@ =~= b.content@.subrange(0, i + 1));
        i += 1;
    }
    assert(content@ =~= b.content@);
    Buffer { width: b.width, height: b.height, content }
}

} // verus!
