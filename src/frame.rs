//! A drawing surface over a buffer: styled text writes at coordinates
//! relative to an area, with scoped style changes and nested areas.
use vstd::prelude::*;
use vstd::string::*;
use crate::buffer::{Buffer, Cell};
use crate::layout::Rect;
use crate::style::{Style, plain_style};
use crate::widgets::Widget;

verus! {

/// What cell `(cx, cy)` of `b` holds after `text` is written from `(x0, y0)`
/// in `style`: characters that fall outside the buffer are dropped.
pub open spec fn written_cell(
    b: Buffer,
    x0: int,
    y0: int,
    text: Seq<char>,
    style: Style,
    cx: int,
    cy: int,
) -> Cell {
    if cy == y0 && x0 <= cx < x0 + text.len() {
        Cell { symbol: text[cx - x0], style }
    } else {
        b.cell(cx, cy)
    }
}

/// Whether `after` is `before` with `text` written from `(x0, y0)` in `style`.
pub open spec fn text_written(
    before: Buffer,
    after: Buffer,
    x0: int,
    y0: int,
    text: Seq<char>,
    style: Style,
) -> bool {
    &&& after.wf()
    &&& after.width == before.width
    &&& after.height == before.height
    &&& forall|cx: int, cy: int|
        0 <= cx < before.width && 0 <= cy < before.height ==> #[trigger] after.cell(cx, cy)
            == written_cell(before, x0, y0, text, style, cx, cy)
}

/// A drawing handle over a buffer.
pub struct Frame<'a> {
    /// The buffer drawn into.
    pub buffer: &'a mut Buffer,
    /// The area whose top-left corner is the origin of coordinates.
    pub area: Rect,
    /// The style of what is drawn.
    pub current_style: Style,
}

impl<'a> Frame<'a> {
    /// A frame over `buffer` with its origin at the corner of `area`, in the
    /// plain style.
    pub fn new(buffer: &'a mut Buffer, area: Rect) -> (r: Frame<'a>)
        ensures
            *r.buffer == *old(buffer),
            *final(r.buffer) == *final(buffer),
            r.area == area,
            r.current_style == plain_style(),
    {
        Frame { buffer, area, current_style: Style::new() }
    }

    /// The width of the frame's area.
    pub fn width(&self) -> (r: u16)
        ensures
            r == self.area.width,
    {
        self.area.width
    }

    /// The height of the frame's area.
    pub fn height(&self) -> (r: u16)
        ensures
            r == self.area.height,
    {
        self.area.height
    }

    /// The frame's area.
    pub fn area(&self) -> (r: Rect)
        ensures
            r == self.area,
    {
        self.area
    }

    /// Runs `f` once on a sub-frame over the same buffer, in the current
    /// style, whose origin is the corner of `area`; drawing is bounded by the
    /// buffer only. This frame keeps its area and style, and its buffer
    /// holds what `f` drew through the sub-frame.
    pub fn render_area<F: FnOnce(&mut Frame)>(&mut self, area: Rect, f: F)
        requires
            forall|fr: &mut Frame| f.requires((fr,)),
        ensures
            final(self).area == old(self).area,
            final(self).current_style == old(self).current_style,
            exists|fr: &mut Frame|
                {
                    &&& fr.area == area
                    &&& fr.current_style == old(self).current_style
                    &&& *fr.buffer == *old(self).buffer
                    &&& #[trigger] f.ensures((fr,), ())
                    &&& *final(self).buffer == *final(fr.buffer)
                },
    {
        let mut sub = Frame { buffer: self.buffer, area, current_style: self.current_style };
        f(&mut sub);
    }

    /// Writes `text` from `(x, y)`, relative to the area's corner, one
    /// character per column in the current style; characters outside the
    /// buffer are dropped.
    pub fn write_str(&mut self, x: u16, y: u16, text: &str)
        requires
            old(self).buffer.wf(),
        ensures
            text_written(
                *old(self).buffer,
                *final(self).buffer,
                old(self).area.x + x,
                old(self).area.y + y,
                text@,
                old(self).current_style,
            ),
            final(self).area == old(self).area,
            final(self).current_style == old(self).current_style,
            *final(final(self).buffer) == *final(old(self).buffer),
    {
        let n = text.unicode_len();
        let x0: u64 = self.area.x as u64 + x as u64;
        let y0: u64 = self.area.y as u64 + y as u64;
        let style = self.current_style;
        let mut i: usize = 0;
        while i < n
            invariant
                n == text@.len(),
                i <= n,
                x0 == old(self).area.x + x,
                y0 == old(self).area.y + y,
                style == old(self).current_style,
                self.area == old(self).area,
                self.current_style == old(self).current_style,
                *final(self.buffer) == *final(old(self).buffer),
                text_written(
                    *old(self).buffer,
                    *self.buffer,
                    x0 as int,
                    y0 as int,
                    text@.subrange(0, i as int),
                    style,
                ),
            decreases n - i,
        {
            let c = text.get_char(i);
            let ghost before = *self.buffer;
            if i <= 0xffff && x0 + (i as u64) <= u16::MAX as u64 && y0 <= u16::MAX as u64 {
                self.buffer.set_with_style((x0 + i as u64) as u16, y0 as u16, c, style);
                proof {
                    let after = *self.buffer;
                    assert forall|cx: int, cy: int|
                        0 <= cx < before.width && 0 <= cy < before.height implies #[trigger] after.cell(cx, cy)
                            == written_cell(*old(self).buffer, x0 as int, y0 as int, text@.subrange(0, i + 1), style, cx, cy) by {
                        assert(before.cell(cx, cy) == written_cell(*old(self).buffer, x0 as int, y0 as int, text@.subrange(0, i as int), style, cx, cy));
                        if cy == y0 && x0 <= cx < x0 + i {
                            assert(text@.subrange(0, i + 1)[cx - x0] == text@.subrange(0, i as int)[cx - x0]);
                        }
                        before.lemma_index_in_bounds(cx, cy);
                        if cx == x0 + i && cy == y0 {
                            assert(text@.subrange(0, i + 1)[i as int] == text@[i as int]);
                        } else if x0 + i < before.width && y0 < before.height {
                            lemma_distinct_index(before, cx, cy, x0 + i, y0 as int);
                            before.lemma_index_in_bounds(x0 + i, y0 as int);
                            assert(after.cell(cx, cy) == before.cell(cx, cy));
                        } else {
                            assert(after.cell(cx, cy) == before.cell(cx, cy));
                        }
                    }
                }
            } else {
                proof {
                    let after = *self.buffer;
                    assert forall|cx: int, cy: int|
                        0 <= cx < before.width && 0 <= cy < before.height implies #[trigger] after.cell(cx, cy)
                            == written_cell(*old(self).buffer, x0 as int, y0 as int, text@.subrange(0, i + 1), style, cx, cy) by {
                        assert(before.cell(cx, cy) == written_cell(*old(self).buffer, x0 as int, y0 as int, text@.subrange(0, i as int), style, cx, cy));
                        assert(cx != x0 + i || cy != y0);
                        if cy == y0 && x0 <= cx < x0 + i {
                            assert(text@.subrange(0, i + 1)[cx - x0] == text@.subrange(0, i as int)[cx - x0]);
                        }
                    }
                }
            }
            i += 1;
        }
        assert(text@.subrange(0, n as int) =~= text@);
    }

    /// Sets the style of what is drawn next.
    pub fn set_style(&mut self, style: Style)
        ensures
            final(self).current_style == style,
            final(self).area == old(self).area,
            *final(self).buffer == *old(self).buffer,
            *final(final(self).buffer) == *final(old(self).buffer),
    {
        self.current_style = style;
    }

    /// Sets the plain style for what is drawn next.
    pub fn reset_style(&mut self)
        ensures
            final(self).current_style == plain_style(),
            final(self).area == old(self).area,
            *final(self).buffer == *old(self).buffer,
            *final(final(self).buffer) == *final(old(self).buffer),
    {
        self.current_style = Style::new();
    }

    /// Runs `f` once on this frame with `style` as the current style, and
    /// then restores the style that was current before; the area and the
    /// buffer are what `f` left.
    pub fn with_style<F: FnOnce(&mut Frame)>(&mut self, style: Style, f: F)
        requires
            forall|fr: &mut Frame| f.requires((fr,)),
        ensures
            final(self).current_style == old(self).current_style,
            exists|fr: &mut Frame|
                {
                    &&& fr.current_style == style
                    &&& fr.area == old(self).area
                    &&& *fr.buffer == *old(self).buffer
                    &&& #[trigger] f.ensures((fr,), ())
                    &&& final(self).area == final(fr).area
                    &&& *final(self).buffer == *final(fr).buffer
                },
    {
        let saved = self.current_style;
        self.current_style = style;
        f(self);
        self.current_style = saved;
    }

    /// Draws `widget` into `area` of this frame: the effect is that of
    /// `widget.render(area, frame)` on this frame.
    pub fn render_widget<W: Widget>(&mut self, widget: W, area: Rect)
        requires
            old(self).buffer.wf(),
        ensures
            exists|fr: &mut Frame|
                {
                    &&& fr.area == old(self).area
                    &&& fr.current_style == old(self).current_style
                    &&& *fr.buffer == *old(self).buffer
                    &&& call_ensures(W::render, (widget, area, fr), ())
                    &&& final(self).area == final(fr).area
                    &&& final(self).current_style == final(fr).current_style
                    &&& *final(self).buffer == *final(fr).buffer
                },
    {
        widget.render(area, self);
    }
}

proof fn lemma_distinct_index(b: Buffer, cx: int, cy: int, px: int, py: int)
    requires
        b.wf(),
        0 <= cx < b.width,
        0 <= cy < b.height,
        0 <= px < b.width,
        0 <= py < b.height,
        cx != px || cy != py,
    ensures
        b.index_of(cx, cy) != b.index_of(px, py),
{
    if cy == py {
    } else if cy < py {
        assert(cy * b.width as int + b.width as int <= py * b.width as int) by (nonlinear_arith)
            requires
                cy < py,
                b.width >= 0,
        ;
    } else {
        assert(py * b.width as int + b.width as int <= cy * b.width as int) by (nonlinear_arith)
            requires
                py < cy,
                b.width >= 0,
        ;
    }
}

} // verus!
