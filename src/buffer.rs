//! A grid of cells holding one frame, and the diff between two frames.
use vstd::prelude::*;
use crate::style::{Style, plain_style};

verus! {

/// A single character on the screen with its style.
#[derive(Debug, Clone, Copy, PartialEq, Eq, Structural)]
pub struct Cell {
    /// The character shown in this cell.
    pub symbol: char,
    /// The style the character is drawn with.
    pub style: Style,
}

/// A space in the plain style.
pub open spec fn blank_cell() -> Cell {
    Cell { symbol: ' ', style: plain_style() }
}

impl Default for Cell {
    fn default() -> (r: Cell)
        ensures
            r == blank_cell(),
    {
        Cell { symbol: ' ', style: Style::new() }
    }
}

/// One cell that differs between two frames.
#[derive(Debug, Clone, Copy, PartialEq, Eq, Structural)]
pub struct Change {
    pub x: u16,
    pub y: u16,
    pub cell: Cell,
}

/// A grid of cells in row-major order.
#[derive(Debug, Clone, PartialEq, Eq)]
pub struct Buffer {
    /// The width of the buffer in columns.
    pub width: u16,
    /// The height of the buffer in rows.
    pub height: u16,
    /// The cells, row after row.
    pub content: Vec<Cell>,
}

/// The change that reports the cell at linear index `i` of `b`.
pub open spec fn change_at(b: Buffer, i: int) -> Change {
    Change {
        x: (i % b.width as int) as u16,
        y: (i / b.width as int) as u16,
        cell: b.content@[i],
    }
}

/// The changes for the cells among the first `n` where `a` and `b` differ.
pub open spec fn diff_prefix(a: Buffer, b: Buffer, n: int) -> Seq<Change>
    decreases n,
{
    if n <= 0 {
        seq![]
    } else if a.content@[n - 1] != b.content@[n - 1] {
        diff_prefix(a, b, n - 1).push(change_at(a, n - 1))
    } else {
        diff_prefix(a, b, n - 1)
    }
}

/// Whether two buffers have the same width and height.
pub open spec fn same_size(a: Buffer, b: Buffer) -> bool {
    a.width == b.width && a.height == b.height
}

/// What `a.diff(b)` returns: every cell of `a` when the sizes differ, else
/// the cells where the two differ, both in row-major order.
pub open spec fn diff_of(a: Buffer, b: Buffer) -> Seq<Change> {
    if same_size(a, b) {
        diff_prefix(a, b, a.content@.len() as int)
    } else {
        Seq::new(a.content@.len(), |i: int| change_at(a, i))
    }
}

/// The linear index of the cell that `c` reports, in a buffer `width` wide.
pub open spec fn change_index(c: Change, width: u16) -> int {
    c.y as int * width as int + c.x as int
}

proof fn lemma_change_at(b: Buffer, i: int)
    requires
        b.wf(),
        0 <= i < b.content@.len(),
    ensures
        change_index(change_at(b, i), b.width) == i,
        change_at(b, i).x < b.width,
        change_at(b, i).y < b.height,
{
    let w = b.width as int;
    let h = b.height as int;
    assert(w > 0) by (nonlinear_arith)
        requires
            0 <= i < w * h,
            w >= 0,
            h >= 0,
    ;
    assert(i == (i / w) * w + i % w && 0 <= i % w < w && 0 <= i / w < h) by (nonlinear_arith)
        requires
            0 <= i < w * h,
            w > 0,
    ;
}

proof fn lemma_diff_prefix_exact(a: Buffer, b: Buffer, n: int)
    requires
        a.wf(),
        b.wf(),
        same_size(a, b),
        0 <= n <= a.content@.len(),
    ensures
        ({
            let d = diff_prefix(a, b, n);
            &&& forall|j: int|
                0 <= j < d.len() ==> {
                    let k = change_index(#[trigger] d[j], a.width);
                    &&& 0 <= k < n
                    &&& a.content@[k] != b.content@[k]
                    &&& d[j] == change_at(a, k)
                }
            &&& forall|j1: int, j2: int|
                0 <= j1 < j2 < d.len() ==> change_index(#[trigger] d[j1], a.width) < change_index(
                    #[trigger] d[j2],
                    a.width,
                )
            &&& forall|k: int|
                0 <= k < n && a.content@[k] != b.content@[k] ==> exists|j: int|
                    0 <= j < d.len() && change_index(#[trigger] d[j], a.width) == k
        }),
    decreases n,
{
    if n > 0 {
        lemma_diff_prefix_exact(a, b, n - 1);
        lemma_change_at(a, n - 1);
        let p = diff_prefix(a, b, n - 1);
        let d = diff_prefix(a, b, n);
        if a.content@[n - 1] != b.content@[n - 1] {
            assert(d == p.push(change_at(a, n - 1)));
            assert forall|k: int|
                0 <= k < n && a.content@[k] != b.content@[k] implies exists|j: int|
                0 <= j < d.len() && change_index(#[trigger] d[j], a.width) == k by {
                if k == n - 1 {
                    assert(change_index(d[p.len() as int], a.width) == k);
                } else {
                    let j = choose|j: int| 0 <= j < p.len() && change_index(#[trigger] p[j], a.width) == k;
                    assert(d[j] == p[j]);
                }
            }
        } else {
            assert(d == p);
        }
    }
}

/// For buffers of one size, the diff reports exactly the cells that differ,
/// each once, in row-major order, with the cell of the first buffer.
pub proof fn lemma_diff_exact(a: Buffer, b: Buffer)
    requires
        a.wf(),
        b.wf(),
        same_size(a, b),
    ensures
        ({
            let d = diff_of(a, b);
            &&& forall|j: int|
                0 <= j < d.len() ==> {
                    let k = change_index(#[trigger] d[j], a.width);
                    &&& 0 <= k < a.content@.len()
                    &&& a.content@[k] != b.content@[k]
                    &&& d[j] == change_at(a, k)
                }
            &&& forall|j1: int, j2: int|
                0 <= j1 < j2 < d.len() ==> change_index(#[trigger] d[j1], a.width) < change_index(
                    #[trigger] d[j2],
                    a.width,
                )
            &&& forall|k: int|
                0 <= k < a.content@.len() && a.content@[k] != b.content@[k] ==> exists|j: int|
                    0 <= j < d.len() && change_index(#[trigger] d[j], a.width) == k
        }),
{
    lemma_diff_prefix_exact(a, b, a.content@.len() as int);
}

proof fn lemma_diff_prefix_equal(a: Buffer, b: Buffer, n: int)
    requires
        a.content@ == b.content@,
    ensures
        diff_prefix(a, b, n) == Seq::<Change>::empty(),
    decreases n,
{
    if n > 0 {
        lemma_diff_prefix_equal(a, b, n - 1);
    }
}

/// Buffers of one size with the same cells have an empty diff; in
/// particular a buffer's diff with itself is empty.
pub proof fn lemma_diff_same_cells(a: Buffer, b: Buffer)
    requires
        same_size(a, b),
        a.content@ == b.content@,
    ensures
        diff_of(a, b) == Seq::<Change>::empty(),
        diff_of(a, a) == Seq::<Change>::empty(),
{
    lemma_diff_prefix_equal(a, b, a.content@.len() as int);
    lemma_diff_prefix_equal(a, a, a.content@.len() as int);
}

/// For buffers of different sizes, the diff reports every cell of the first
/// buffer, in row-major order.
pub proof fn lemma_diff_resized(a: Buffer, b: Buffer)
    requires
        a.wf(),
        !same_size(a, b),
    ensures
        diff_of(a, b).len() == a.content@.len(),
        forall|k: int|
            0 <= k < a.content@.len() ==> #[trigger] diff_of(a, b)[k] == change_at(a, k)
                && change_index(diff_of(a, b)[k], a.width) == k,
{
    assert forall|k: int| 0 <= k < a.content@.len() implies #[trigger] diff_of(a, b)[k] == change_at(a, k)
        && change_index(diff_of(a, b)[k], a.width) == k by {
        lemma_change_at(a, k);
    }
}

impl Buffer {
    /// Whether the cell sequence has one cell per coordinate.
    pub open spec fn wf(&self) -> bool {
        self.content@.len() == self.width as int * self.height as int
    }

    /// The linear index of the coordinates.
    pub open spec fn index_of(&self, x: int, y: int) -> int {
        y * self.width as int + x
    }

    /// The cell at the coordinates.
    pub open spec fn cell(&self, x: int, y: int) -> Cell {
        self.content@[self.index_of(x, y)]
    }

    /// A buffer of the given size, filled with blank cells.
    pub fn new(width: u16, height: u16) -> (r: Buffer)
        ensures
            r.wf(),
            r.width == width,
            r.height == height,
            forall|i: int| 0 <= i < r.content@.len() ==> r.content@[i] == blank_cell(),
    {
        proof {
            assert(width as int * height as int <= 0xffff * 0xffff) by (nonlinear_arith)
                requires
                    width <= 0xffff,
                    height <= 0xffff,
            ;
            assert(usize::MAX >= 0xffff_ffff);
        }
        let n: usize = (width as usize) * (height as usize);
        let mut content: Vec<Cell> = Vec::new();
        let mut i: usize = 0;
        while i < n
            invariant
                i <= n,
                content@.len() == i,
                forall|j: int| 0 <= j < i ==> content@[j] == blank_cell(),
            decreases n - i,
        {
            content.push(Cell::default());
            i += 1;
        }
        Buffer { width, height, content }
    }

    pub(crate) proof fn lemma_index_in_bounds(&self, x: int, y: int)
        requires
            self.wf(),
            0 <= x < self.width,
            0 <= y < self.height,
        ensures
            0 <= self.index_of(x, y) < self.content@.len(),
    {
        assert(y * self.width as int + x < self.width as int * self.height as int) by (nonlinear_arith)
            requires
                0 <= x < self.width,
                0 <= y < self.height,
        ;
        assert(0 <= y * self.width as int) by (nonlinear_arith)
            requires
                0 <= y,
                0 <= self.width,
        ;
    }

    /// The linear index of the coordinates.
    fn index(&self, x: u16, y: u16) -> (r: usize)
        requires
            self.wf(),
            x < self.width,
            y < self.height,
        ensures
            r == self.index_of(x as int, y as int),
            r < self.content@.len(),
    {
        proof {
            self.lemma_index_in_bounds(x as int, y as int);
            assert(self.width as int * self.height as int <= 0xffff * 0xffff) by (nonlinear_arith)
                requires
                    self.width <= 0xffff,
                    self.height <= 0xffff,
            ;
            assert(usize::MAX >= 0xffff_ffff);
        }
        (y as usize) * (self.width as usize) + (x as usize)
    }

    /// The cell at the coordinates, which must lie inside the buffer.
    pub fn get(&self, x: u16, y: u16) -> (r: &Cell)
        requires
            self.wf(),
            x < self.width,
            y < self.height,
        ensures
            *r == self.cell(x as int, y as int),
    {
        let i = self.index(x, y);
        &self.content[i]
    }

    /// Sets the character at the coordinates, keeping the cell's style; does
    /// nothing outside the buffer.
    pub fn set(&mut self, x: u16, y: u16, symbol: char)
        requires
            old(self).wf(),
        ensures
            final(self).wf(),
            final(self).width == old(self).width,
            final(self).height == old(self).height,
            final(self).content@ == (if x < old(self).width && y < old(self).height {
                old(self).content@.update(
                    old(self).index_of(x as int, y as int),
                    Cell { symbol, ..old(self).cell(x as int, y as int) },
                )
            } else {
                old(self).content@
            }),
    {
        if x >= self.width || y >= self.height {
            return;
        }
        let i = self.index(x, y);
        let style = self.content[i].style;
        self.content.set(i, Cell { symbol, style });
    }

    /// Sets the character and style at the coordinates; does nothing outside
    /// the buffer.
    pub fn set_with_style(&mut self, x: u16, y: u16, symbol: char, style: Style)
        requires
            old(self).wf(),
        ensures
            final(self).wf(),
            final(self).width == old(self).width,
            final(self).height == old(self).height,
            final(self).content@ == (if x < old(self).width && y < old(self).height {
                old(self).content@.update(
                    old(self).index_of(x as int, y as int),
                    Cell { symbol, style },
                )
            } else {
                old(self).content@
            }),
    {
        if x >= self.width || y >= self.height {
            return;
        }
        let i = self.index(x, y);
        self.content.set(i, Cell { symbol, style });
    }

    /// The cells of this buffer that differ from `other`, in row-major order;
    /// every cell of this buffer when the two sizes differ.
    pub fn diff(&self, other: &Buffer) -> (r: Vec<Change>)
        requires
            self.wf(),
            other.wf(),
        ensures
            r@ == diff_of(*self, *other),
    {
        let mut changes: Vec<Change> = Vec::new();
        let n = self.content.len();
        let w = self.width as usize;
        let same = self.width == other.width && self.height == other.height;
        let mut i: usize = 0;
        while i < n
            invariant
                n == self.content@.len(),
                self.wf(),
                other.wf(),
                w == self.width,
                same == same_size(*self, *other),
                i <= n,
                same ==> changes@ == diff_prefix(*self, *other, i as int),
                !same ==> changes@ == Seq::new(i as nat, |j: int| change_at(*self, j)),
            decreases n - i,
        {
            proof {
                if w == 0 {
                    assert(self.width as int * self.height as int == 0);
                }
                assert(i / w < self.height) by (nonlinear_arith)
                    requires
                        i < w * self.height,
                        w > 0,
                ;
            }
            let cell = self.content[i];
            let change = Change { x: (i % w) as u16, y: (i / w) as u16, cell };
            if !same {
                changes.push(change);
                assert(changes@ =~= Seq::new((i + 1) as nat, |j: int| change_at(*self, j)));
            } else if cell != other.content[i] {
                changes.push(change);
            }
            i += 1;
        }
        proof {
            if !same {
                assert(changes@ =~= Seq::new(n as nat, |j: int| change_at(*self, j)));
            }
        }
        changes
    }
}

} // verus!
