//! Rectangles, and the splitting of a rectangle into pieces by constraints.
use vstd::prelude::*;

verus! {

/// The axis along which a rectangle is split.
#[derive(Debug, Clone, Copy, PartialEq, Eq, Structural)]
pub enum Direction {
    /// Side by side.
    Horizontal,
    /// Top to bottom.
    Vertical,
}

/// The size rule of one piece of a split.
#[derive(Debug, Clone, Copy, PartialEq, Eq, Structural)]
pub enum Constraint {
    /// An equal share of the space that the fixed pieces leave.
    Fill,
    /// A percentage of the whole extent.
    Percentage(u16),
    /// A fixed number of cells.
    Length(u16),
    /// A fraction `num / den` of the whole extent.
    Ratio(u32, u32),
    /// A share like `Fill`, but at least the given size.
    Min(u16),
    /// A share like `Fill`, but at most the given size.
    Max(u16),
}

/// A rectangular area of the screen.
#[derive(Debug, Clone, Copy, PartialEq, Eq, Structural)]
pub struct Rect {
    pub x: u16,
    pub y: u16,
    pub width: u16,
    pub height: u16,
}

impl Default for Rect {
    fn default() -> (r: Rect)
        ensures
            r == (Rect { x: 0, y: 0, width: 0, height: 0 }),
    {
        Rect { x: 0, y: 0, width: 0, height: 0 }
    }
}

impl Rect {
    /// A rectangle with the given corner and size.
    pub fn new(x: u16, y: u16, width: u16, height: u16) -> (r: Rect)
        ensures
            r == (Rect { x, y, width, height }),
    {
        Rect { x, y, width, height }
    }

    /// The number of cells in the rectangle.
    pub fn area(&self) -> (r: u16)
        requires
            self.width * self.height <= u16::MAX,
        ensures
            r == self.width * self.height,
    {
        self.width * self.height
    }

    /// The column of the left edge.
    pub fn left(&self) -> (r: u16)
        ensures
            r == self.x,
    {
        self.x
    }

    /// The column just past the right edge.
    pub fn right(&self) -> (r: u16)
        requires
            self.x + self.width <= u16::MAX,
        ensures
            r == self.x + self.width,
    {
        self.x + self.width
    }

    /// The row of the top edge.
    pub fn top(&self) -> (r: u16)
        ensures
            r == self.y,
    {
        self.y
    }

    /// The row just past the bottom edge.
    pub fn bottom(&self) -> (r: u16)
        requires
            self.y + self.height <= u16::MAX,
        ensures
            r == self.y + self.height,
    {
        self.y + self.height
    }
}

/// The extent of `rect` along the split axis.
pub open spec fn extent(direction: Direction, rect: Rect) -> nat {
    match direction {
        Direction::Horizontal => rect.width as nat,
        Direction::Vertical => rect.height as nat,
    }
}

/// Whether the constraint shares the space left by the fixed ones.
pub open spec fn is_flexible(c: Constraint) -> bool {
    match c {
        Constraint::Fill | Constraint::Min(_) | Constraint::Max(_) => true,
        _ => false,
    }
}

/// The size of a fixed constraint in an extent of `total`.
pub open spec fn fixed_size(c: Constraint, total: nat) -> nat {
    match c {
        Constraint::Length(n) => n as nat,
        Constraint::Percentage(p) => p as nat * total / 100,
        Constraint::Ratio(num, den) => if den == 0 {
            0
        } else {
            total * num as nat / den as nat
        },
        _ => 0,
    }
}

/// The sum of the fixed sizes among the first `n` constraints.
pub open spec fn fixed_sum(cs: Seq<Constraint>, total: nat, n: int) -> nat
    decreases n,
{
    if n <= 0 {
        0
    } else {
        fixed_sum(cs, total, n - 1) + fixed_size(cs[n - 1], total)
    }
}

/// The number of flexible constraints among the first `n`.
pub open spec fn flex_count(cs: Seq<Constraint>, n: int) -> nat
    decreases n,
{
    if n <= 0 {
        0
    } else {
        flex_count(cs, n - 1) + if is_flexible(cs[n - 1]) {
            1nat
        } else {
            0nat
        }
    }
}

/// The size of one flexible share: what the fixed pieces leave, divided
/// evenly and rounded down; 0 when there is no flexible constraint.
pub open spec fn flex_unit(cs: Seq<Constraint>, total: nat) -> nat {
    let count = flex_count(cs, cs.len() as int);
    let used = fixed_sum(cs, total, cs.len() as int);
    if count == 0 {
        0
    } else if used >= total {
        0
    } else {
        ((total - used) as nat) / count
    }
}

/// The size of the piece for `c`.
pub open spec fn piece_size(c: Constraint, total: nat, unit: nat) -> nat {
    match c {
        Constraint::Fill => unit,
        Constraint::Min(n) => if unit >= n {
            unit
        } else {
            n as nat
        },
        Constraint::Max(n) => if unit <= n {
            unit
        } else {
            n as nat
        },
        _ => fixed_size(c, total),
    }
}

/// The sum of the sizes of the first `n` pieces.
pub open spec fn offset_of(cs: Seq<Constraint>, total: nat, n: int) -> nat
    decreases n,
{
    if n <= 0 {
        0
    } else {
        offset_of(cs, total, n - 1) + piece_size(cs[n - 1], total, flex_unit(cs, total))
    }
}

/// The `i`-th piece of splitting `rect`.
pub open spec fn piece(direction: Direction, cs: Seq<Constraint>, rect: Rect, i: int) -> Rect {
    let total = extent(direction, rect);
    let offset = offset_of(cs, total, i);
    let size = piece_size(cs[i], total, flex_unit(cs, total));
    match direction {
        Direction::Horizontal => Rect {
            x: (rect.x + offset) as u16,
            y: rect.y,
            width: size as u16,
            height: rect.height,
        },
        Direction::Vertical => Rect {
            x: rect.x,
            y: (rect.y + offset) as u16,
            width: rect.width,
            height: size as u16,
        },
    }
}

/// The start of `rect` along the split axis.
pub open spec fn axis_start(direction: Direction, rect: Rect) -> nat {
    match direction {
        Direction::Horizontal => rect.x as nat,
        Direction::Vertical => rect.y as nat,
    }
}

/// Whether `c` is a ratio with a zero denominator.
pub open spec fn has_zero_denominator(c: Constraint) -> bool {
    match c {
        Constraint::Ratio(_, den) => den == 0,
        _ => false,
    }
}

/// Whether the split of `rect` can be expressed in screen coordinates: every
/// ratio has a non-zero denominator, and the pieces end by the last column
/// or row.
pub open spec fn split_fits(direction: Direction, cs: Seq<Constraint>, rect: Rect) -> bool {
    &&& forall|i: int|
        0 <= i < cs.len() ==> !has_zero_denominator(#[trigger] cs[i])
    &&& axis_start(direction, rect) + offset_of(cs, extent(direction, rect), cs.len() as int)
        <= u16::MAX
}

proof fn lemma_offset_monotonic(cs: Seq<Constraint>, total: nat, m: int, n: int)
    requires
        0 <= m <= n <= cs.len(),
    ensures
        offset_of(cs, total, m) <= offset_of(cs, total, n),
    decreases n - m,
{
    if m < n {
        lemma_offset_monotonic(cs, total, m, n - 1);
    }
}

proof fn lemma_flex_count_bounded(cs: Seq<Constraint>, n: int)
    requires
        0 <= n,
    ensures
        flex_count(cs, n) <= n,
    decreases n,
{
    if n > 0 {
        lemma_flex_count_bounded(cs, n - 1);
    }
}

/// The size of a fixed constraint.
fn fixed_size_of(c: Constraint, total: u16) -> (r: u64)
    requires
        !has_zero_denominator(c),
    ensures
        r == fixed_size(c, total as nat),
{
    match c {
        Constraint::Length(n) => n as u64,
        Constraint::Percentage(p) => {
            assert(p as nat * total as nat <= 0xffff * 0xffff) by (nonlinear_arith)
                requires
                    p <= 0xffff,
                    total <= 0xffff,
            ;
            (p as u64) * (total as u64) / 100
        },
        Constraint::Ratio(num, den) => {
            assert(total as nat * num as nat <= 0xffff * 0xffff_ffff) by (nonlinear_arith)
                requires
                    num <= 0xffff_ffff,
                    total <= 0xffff,
            ;
            (total as u64) * (num as u64) / (den as u64)
        },
        _ => 0,
    }
}

/// A rule for splitting a rectangle into pieces.
pub struct Layout {
    /// The axis of the split.
    pub direction: Direction,
    /// One constraint per piece, in order.
    pub constraints: Vec<Constraint>,
}

impl Layout {
    /// A layout with the given axis and constraints.
    pub fn new(direction: Direction, constraints: Vec<Constraint>) -> (r: Layout)
        ensures
            r.direction == direction,
            r.constraints@ == constraints@,
    {
        Layout { direction, constraints }
    }

    /// Whether `split` can be called on `rect`.
    pub fn fits(&self, rect: Rect) -> (r: bool)
        ensures
            r == split_fits(self.direction, self.constraints@, rect),
    {
        let cs = &self.constraints;
        let total: u16 = match self.direction {
            Direction::Horizontal => rect.width,
            Direction::Vertical => rect.height,
        };
        let start: u64 = match self.direction {
            Direction::Horizontal => rect.x as u64,
            Direction::Vertical => rect.y as u64,
        };
        let ghost t = total as nat;
        let n = cs.len();
        let mut i: usize = 0;
        while i < n
            invariant
                n == cs@.len(),
                cs@ == self.constraints@,
                i <= n,
                forall|j: int| 0 <= j < i ==> !has_zero_denominator(#[trigger] cs@[j]),
            decreases n - i,
        {
            if let Constraint::Ratio(_, den) = cs[i] {
                if den == 0 {
                    assert(has_zero_denominator(cs@[i as int]));
                    return false;
                }
            }
            i += 1;
        }
        let (used, flex) = fixed_and_flex(cs, total);
        let unit = unit_of(used, flex, total, Ghost(cs@));
        let mut offset: u64 = start;
        let mut k: usize = 0;
        while k < n
            invariant
                n == cs@.len(),
                cs@ == self.constraints@,
                k <= n,
                unit == flex_unit(cs@, t),
                unit <= total,
                t == total,
                t == extent(self.direction, rect),
                start == axis_start(self.direction, rect),
                offset == start + offset_of(cs@, t, k as int),
                offset <= u16::MAX,
                forall|j: int| 0 <= j < n ==> !has_zero_denominator(#[trigger] cs@[j]),
            decreases n - k,
        {
            assert(offset_of(cs@, t, k + 1) == offset_of(cs@, t, k as int) + piece_size(
                cs@[k as int],
                t,
                unit as nat,
            ));
            let size = piece_size_of(cs[k], total, unit);
            if size > u16::MAX as u64 - offset {
                proof {
                    lemma_offset_monotonic(cs@, t, k + 1, n as int);
                    assert(start + offset_of(cs@, t, k + 1) > u16::MAX);
                    assert(axis_start(self.direction, rect) + offset_of(cs@, extent(self.direction, rect), n as int) > u16::MAX);
                    assert(!split_fits(self.direction, cs@, rect));
                }
                return false;
            }
            offset = offset + size;
            k += 1;
        }
        true
    }

    /// Splits `rect` along the layout's axis into one piece per constraint,
    /// in order and side by side from the rectangle's start; the other
    /// dimension is kept whole.
    pub fn split(&self, rect: Rect) -> (r: Vec<Rect>)
        requires
            split_fits(self.direction, self.constraints@, rect),
        ensures
            r@.len() == self.constraints@.len(),
            forall|i: int|
                0 <= i < r@.len() ==> r@[i] == piece(self.direction, self.constraints@, rect, i),
    {
        let cs = &self.constraints;
        let total: u16 = match self.direction {
            Direction::Horizontal => rect.width,
            Direction::Vertical => rect.height,
        };
        let ghost t = total as nat;
        let n = cs.len();
        let (used, flex) = fixed_and_flex(cs, total);
        let unit = unit_of(used, flex, total, Ghost(cs@));
        let mut rects: Vec<Rect> = Vec::new();
        let mut offset: u64 = 0;
        let mut i: usize = 0;
        while i < n
            invariant
                n == cs@.len(),
                i <= n,
                unit == flex_unit(cs@, t),
                unit <= total,
                t == total,
                t == extent(self.direction, rect),
                split_fits(self.direction, cs@, rect),
                offset == offset_of(cs@, t, i as int),
                rects@.len() == i,
                forall|j: int| 0 <= j < i ==> rects@[j] == piece(self.direction, cs@, rect, j),
            decreases n - i,
        {
            proof {
                lemma_offset_monotonic(cs@, t, i + 1, n as int);
            }
            assert(offset_of(cs@, t, i + 1) == offset_of(cs@, t, i as int) + piece_size(
                cs@[i as int],
                t,
                unit as nat,
            ));
            let size = piece_size_of(cs[i], total, unit);
            let sub = match self.direction {
                Direction::Horizontal => Rect::new(rect.x + offset as u16, rect.y, size as u16, rect.height),
                Direction::Vertical => Rect::new(rect.x, rect.y + offset as u16, rect.width, size as u16),
            };
            rects.push(sub);
            offset = offset + size;
            i += 1;
        }
        rects
    }

    /// Splits `rect` as `split` does, into exactly `N` pieces; the layout
    /// must have `N` constraints.
    pub fn split_to<const N: usize>(&self, rect: Rect) -> (r: [Rect; N])
        requires
            split_fits(self.direction, self.constraints@, rect),
            self.constraints@.len() == N,
        ensures
            forall|i: int| 0 <= i < N ==> r@[i] == piece(self.direction, self.constraints@, rect, i),
    {
        let rects = self.split(rect);
        let mut out: [Rect; N] = [Rect::new(0, 0, 0, 0); N];
        let mut i: usize = 0;
        while i < N
            invariant
                i <= N,
                rects@.len() == N,
                forall|j: int| 0 <= j < N ==> rects@[j] == piece(self.direction, self.constraints@, rect, j),
                forall|j: int| 0 <= j < i ==> out@[j] == rects@[j],
            decreases N - i,
        {
            out.set(i, rects[i]);
            i += 1;
        }
        assert forall|j: int| 0 <= j < N implies out@[j] == piece(
            self.direction,
            self.constraints@,
            rect,
            j,
        ) by {
            assert(out@[j] == rects@[j]);
        }
        out
    }
}

/// The sum of the fixed sizes, capped at `0x10000`, and the number of
/// flexible constraints.
fn fixed_and_flex(cs: &Vec<Constraint>, total: u16) -> (r: (u64, usize))
    requires
        forall|j: int| 0 <= j < cs@.len() ==> !has_zero_denominator(#[trigger] cs@[j]),
    ensures
        r.0 == (if fixed_sum(cs@, total as nat, cs@.len() as int) < 0x10000 {
            fixed_sum(cs@, total as nat, cs@.len() as int)
        } else {
            0x10000
        }),
        r.1 == flex_count(cs@, cs@.len() as int),
{
    let n = cs.len();
    let ghost t = total as nat;
    let mut used: u64 = 0;
    let mut flex: usize = 0;
    let mut i: usize = 0;
    while i < n
        invariant
            n == cs@.len(),
            i <= n,
            t == total as nat,
            forall|j: int| 0 <= j < n ==> !has_zero_denominator(#[trigger] cs@[j]),
            used == (if fixed_sum(cs@, t, i as int) < 0x10000 {
                fixed_sum(cs@, t, i as int)
            } else {
                0x10000
            }),
            flex == flex_count(cs@, i as int),
        decreases n - i,
    {
        proof {
            lemma_flex_count_bounded(cs@, i as int);
        }
        assert(fixed_sum(cs@, t, i + 1) == fixed_sum(cs@, t, i as int) + fixed_size(cs@[i as int], t));
        assert(flex_count(cs@, i + 1) == flex_count(cs@, i as int) + if is_flexible(cs@[i as int]) {
            1nat
        } else {
            0nat
        });
        let c = cs[i];
        match c {
            Constraint::Fill | Constraint::Min(_) | Constraint::Max(_) => {
                flex = flex + 1;
            },
            _ => {
                let s = fixed_size_of(c, total);
                if s >= 0x10000 - used {
                    assert(fixed_sum(cs@, t, i + 1) >= 0x10000);
                    used = 0x10000;
                } else {
                    assert(fixed_sum(cs@, t, i as int) < 0x10000);
                    used = used + s;
                }
            },
        }
        i += 1;
    }
    (used, flex)
}

/// The size of one flexible share, computed from what `fixed_and_flex` returns.
fn unit_of(used: u64, flex: usize, total: u16, Ghost(cs): Ghost<Seq<Constraint>>) -> (r: u64)
    requires
        used == (if fixed_sum(cs, total as nat, cs.len() as int) < 0x10000 {
            fixed_sum(cs, total as nat, cs.len() as int)
        } else {
            0x10000
        }),
        flex == flex_count(cs, cs.len() as int),
    ensures
        r == flex_unit(cs, total as nat),
        r <= total,
{
    if flex == 0 || used >= total as u64 {
        0
    } else {
        let room: u64 = total as u64 - used;
        assert(room / (flex as u64) <= room) by (nonlinear_arith)
            requires
                flex >= 1,
                room >= 0,
        ;
        room / (flex as u64)
    }
}

/// The size of the piece for `c`.
fn piece_size_of(c: Constraint, total: u16, unit: u64) -> (r: u64)
    requires
        !has_zero_denominator(c),
        unit <= u16::MAX,
    ensures
        r == piece_size(c, total as nat, unit as nat),
{
    match c {
        Constraint::Fill => unit,
        Constraint::Min(n) => if unit >= n as u64 {
            unit
        } else {
            n as u64
        },
        Constraint::Max(n) => if unit <= n as u64 {
            unit
        } else {
            n as u64
        },
        _ => fixed_size_of(c, total),
    }
}

} // verus!
