//! Facts about row-major indexing of two-dimensional grids.
use vstd::prelude::*;

verus! {

/// The cell in column `col` of row `row` lies inside the grid.
pub proof fn lemma_index_in_bounds(cols: int, rows: int, col: int, row: int)
    requires
        0 <= col < cols,
        0 <= row < rows,
    ensures
        0 <= row * cols + col < rows * cols,
        0 <= row * cols + col < cols * rows,
{
    assert(0 <= row * cols + col < rows * cols) by (nonlinear_arith)
        requires
            0 <= col < cols,
            0 <= row < rows,
    ;
    assert(rows * cols == cols * rows) by (nonlinear_arith);
}

/// A grid of at most `u16::MAX` by `u16::MAX` cells can be indexed by `usize`.
pub proof fn lemma_grid_fits(cols: int, rows: int)
    requires
        0 <= cols <= u16::MAX,
        0 <= rows <= u16::MAX,
    ensures
        0 <= cols * rows <= 4294836225,
        0 <= rows * cols <= 4294836225,
        4294836225 <= usize::MAX,
{
    assert(0 <= cols * rows <= 4294836225) by (nonlinear_arith)
        requires
            0 <= cols <= 65535,
            0 <= rows <= 65535,
    ;
    assert(rows * cols == cols * rows) by (nonlinear_arith);
}

/// Distinct cells of a grid have distinct indices.
pub proof fn lemma_index_distinct(cols: int, c1: int, r1: int, c2: int, r2: int)
    requires
        0 <= c1 < cols,
        0 <= c2 < cols,
        0 <= r1,
        0 <= r2,
        c1 != c2 || r1 != r2,
    ensures
        r1 * cols + c1 != r2 * cols + c2,
{
    if r1 == r2 {
    } else if r1 < r2 {
        assert(r1 * cols + cols <= r2 * cols) by (nonlinear_arith)
            requires
                r1 < r2,
                0 <= cols,
        ;
    } else {
        assert(r2 * cols + cols <= r1 * cols) by (nonlinear_arith)
            requires
                r2 < r1,
                0 <= cols,
        ;
    }
}

} // verus!
