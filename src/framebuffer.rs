//! The grid of terminal cells that frames draw into.
use vstd::prelude::*;

use crate::color::Color;
use crate::format::Fourcc;
use crate::grid::{lemma_grid_fits, lemma_index_distinct, lemma_index_in_bounds};

verus! {

/// The glyph of every drawn cell: the lower half block, whose upper half
/// shows the background colour and lower half the foreground colour.
pub const HALF_BLOCK: char = '\u{2584}';

/// One terminal cell: two vertically stacked pixels, the upper one in `bg`
/// and the lower one in `fg`.
#[derive(Clone, Copy, Debug, PartialEq, Eq, Structural)]
pub struct Cell {
    pub symbol: char,
    pub fg: Color,
    pub bg: Color,
}

/// A cell that was never drawn.
pub open spec fn empty_cell() -> Cell {
    Cell { symbol: ' ', fg: Color::Reset, bg: Color::Reset }
}

impl Cell {
    /// A cell that was never drawn: a blank in the terminal's default colours.
    pub fn empty() -> (r: Cell)
        ensures
            r == empty_cell(),
    {
        Cell { symbol: ' ', fg: Color::Reset, bg: Color::Reset }
    }
}

/// An axis-aligned rectangle in pixel coordinates: `x .. x + w` by `y .. y + h`.
/// A rectangle with a size that is not positive is empty.
#[derive(Clone, Copy, Debug, PartialEq, Eq, Structural)]
pub struct Rect {
    pub x: i32,
    pub y: i32,
    pub w: i32,
    pub h: i32,
}

impl Rect {
    pub fn new(x: i32, y: i32, w: i32, h: i32) -> (r: Rect)
        ensures
            r == (Rect { x, y, w, h }),
    {
        Rect { x, y, w, h }
    }
}

/// Whether the pixel at column `x` of pixel row `y` lies in `r`.
pub open spec fn covers(r: Rect, x: int, y: int) -> bool {
    r.x <= x < r.x + r.w && r.y <= y < r.y + r.h
}

pub open spec fn max3(a: int, b: int, c: int) -> int {
    if a >= b && a >= c {
        a
    } else if b >= c {
        b
    } else {
        c
    }
}

pub open spec fn min3(a: int, b: int, c: int) -> int {
    if a <= b && a <= c {
        a
    } else if b <= c {
        b
    } else {
        c
    }
}

/// The clipped range of one axis: `lo .. hi` within `0 .. bound`, inside both
/// `a_pos .. a_pos + a_len` and `b_pos .. b_pos + b_len`; `lo >= hi` when empty.
pub fn clip_axis(a_pos: i32, a_len: i32, b_pos: i32, b_len: i32, bound: i64) -> (r: (i64, i64))
    requires
        0 <= bound,
    ensures
        r.0 == max3(0, a_pos as int, b_pos as int),
        r.1 == min3(bound as int, a_pos + a_len, b_pos + b_len),
{
    let mut lo: i64 = 0;
    if a_pos as i64 > lo {
        lo = a_pos as i64;
    }
    if b_pos as i64 > lo {
        lo = b_pos as i64;
    }
    let mut hi: i64 = bound;
    if a_pos as i64 + a_len as i64 <= hi {
        hi = a_pos as i64 + a_len as i64;
    }
    if b_pos as i64 + b_len as i64 <= hi {
        hi = b_pos as i64 + b_len as i64;
    }
    (lo, hi)
}

/// Whether the pixel at column `x` of pixel row `y` lies in `r`.
pub fn covers_exec(r: &Rect, x: i64, y: i64) -> (b: bool)
    ensures
        b == covers(*r, x as int, y as int),
{
    r.x as i64 <= x && x < r.x as i64 + r.w as i64 && r.y as i64 <= y && y < r.y as i64 + r.h as i64
}

/// A terminal-sized grid of `cols` by `rows` cells, row-major, which stands for
/// `cols` by `2 * rows` pixels.
#[derive(Debug)]
pub struct RatatuiFramebuffer {
    cols: u16,
    rows: u16,
    cells: Vec<Cell>,
}

impl RatatuiFramebuffer {
    /// Width of the grid, in cells.
    pub closed spec fn cols(&self) -> nat {
        self.cols as nat
    }

    /// Height of the grid, in cells.
    pub closed spec fn rows(&self) -> nat {
        self.rows as nat
    }

    /// The cells, row by row.
    pub closed spec fn cells(&self) -> Seq<Cell> {
        self.cells@
    }

    pub open spec fn wf(&self) -> bool {
        &&& self.cols() <= u16::MAX
        &&& self.rows() <= u16::MAX
        &&& self.cells().len() == self.cols() * self.rows()
    }

    /// The cell in column `col` of row `row`.
    pub open spec fn cell_at(&self, col: int, row: int) -> Cell {
        self.cells()[row * self.cols() + col]
    }

    /// Whether column `col` and row `row` lie in the grid.
    pub open spec fn in_grid(&self, col: int, row: int) -> bool {
        0 <= col < self.cols() && 0 <= row < self.rows()
    }

    /// A grid of `cols` by `rows` empty cells.
    pub fn empty(cols: u16, rows: u16) -> (r: RatatuiFramebuffer)
        ensures
            r.wf(),
            r.cols() == cols,
            r.rows() == rows,
            forall|c: int, w: int| r.in_grid(c, w) ==> #[trigger] r.cell_at(c, w) == empty_cell(),
    {
        proof {
            lemma_grid_fits(cols as int, rows as int);
        }
        let n: usize = cols as usize * rows as usize;
        let mut cells: Vec<Cell> = Vec::with_capacity(n);
        let mut i: usize = 0;
        while i < n
            invariant
                n == cols * rows,
                i <= n,
                cells@.len() == i,
                forall|j: int| 0 <= j < i ==> #[trigger] cells@[j] == empty_cell(),
            decreases n - i,
        {
            cells.push(Cell::empty());
            i = i + 1;
        }
        let ghost cs = cells@;
        let r = RatatuiFramebuffer { cols, rows, cells };
        assert(r.cells() == cs);
        assert forall|c: int, w: int| r.in_grid(c, w) implies #[trigger] r.cell_at(c, w)
            == empty_cell() by {
            lemma_index_in_bounds(cols as int, rows as int, c, w);
            assert(cs[w * cols + c] == empty_cell());
        }
        r
    }

    /// Width of the grid, in cells.
    pub fn width(&self) -> (r: u32)
        ensures
            r == self.cols(),
    {
        self.cols as u32
    }

    /// Height of the grid, in cells.
    pub fn height(&self) -> (r: u32)
        ensures
            r == self.rows(),
    {
        self.rows as u32
    }

    /// The grid's size in cells, width first.
    pub fn size(&self) -> (r: (u16, u16))
        ensures
            r.0 == self.cols(),
            r.1 == self.rows(),
    {
        (self.cols, self.rows)
    }

    /// The layout in which the grid's colours are held.
    pub fn format(&self) -> (r: Option<Fourcc>)
        ensures
            r == Some(Fourcc::Argb8888),
    {
        Some(Fourcc::Argb8888)
    }

    /// The cell in column `col` of row `row`.
    pub fn cell(&self, col: u16, row: u16) -> (r: Cell)
        requires
            self.wf(),
            self.in_grid(col as int, row as int),
        ensures
            r == self.cell_at(col as int, row as int),
    {
        proof {
            lemma_index_in_bounds(self.cols as int, self.rows as int, col as int, row as int);
            lemma_grid_fits(self.cols as int, self.rows as int);
        }
        self.cells[row as usize * self.cols as usize + col as usize]
    }

    /// Replaces the cell in column `col` of row `row`.
    pub fn set_cell(&mut self, col: u16, row: u16, cell: Cell)
        requires
            old(self).wf(),
            old(self).in_grid(col as int, row as int),
        ensures
            final(self).wf(),
            final(self).cols() == old(self).cols(),
            final(self).rows() == old(self).rows(),
            forall|c: int, w: int|
                final(self).in_grid(c, w) ==> #[trigger] final(self).cell_at(c, w) == if c == col
                    && w == row {
                    cell
                } else {
                    old(self).cell_at(c, w)
                },
    {
        proof {
            lemma_index_in_bounds(self.cols as int, self.rows as int, col as int, row as int);
            lemma_grid_fits(self.cols as int, self.rows as int);
        }
        let idx: usize = row as usize * self.cols as usize + col as usize;
        self.cells.set(idx, cell);
        proof {
            assert forall|c: int, w: int| self.in_grid(c, w) implies #[trigger] self.cell_at(c, w)
                == if c == col && w == row {
                cell
            } else {
                old(self).cell_at(c, w)
            } by {
                lemma_index_in_bounds(self.cols as int, self.rows as int, c, w);
                if c != col || w != row {
                    lemma_index_distinct(self.cols as int, c, w, col as int, row as int);
                }
            }
        }
    }
}

} // verus!
