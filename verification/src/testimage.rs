//! Synthetic factors: ten-by-ten images that hold one straight line of ones
//! on a background of zeros.

use crate::bits::{ONE, POSITIVE_ZERO};
use crate::dmat::DMat;
use vstd::prelude::*;

verus! {

/// Number of rows, and of columns, of every synthetic image.
pub const SIDE: usize = 10;

/// The cell in row `i`, column `j`, of an image whose ones lie in row `row`,
/// in the columns from `start` up to but not including `end`.
pub open spec fn horizontal_cell(row: int, start: int, end: int, i: int, j: int) -> u64 {
    if i == row && start <= j < end {
        ONE
    } else {
        POSITIVE_ZERO
    }
}

/// The cell in row `i`, column `j`, of an image whose ones lie in column
/// `col`, in the rows from `start` up to but not including `end`.
pub open spec fn vertical_cell(start: int, end: int, col: int, i: int, j: int) -> u64 {
    if j == col && start <= i < end {
        ONE
    } else {
        POSITIVE_ZERO
    }
}

/// A line drawn along a row has its transpose drawn along a column.
pub proof fn lemma_lines_are_transposes(line: int, start: int, end: int, i: int, j: int)
    ensures
        horizontal_cell(line, start, end, i, j) == vertical_cell(start, end, line, j, i),
{
}

/// An image with ones in row `row`, in the columns from `col_start` up to
/// but not including `col_end`, and zeros elsewhere. A line that has cells
/// must lie inside the image.
pub fn horizontal_line(row: usize, col_start: usize, col_end: usize) -> (m: DMat)
    requires
        col_start < col_end ==> row < SIDE && col_end <= SIDE,
    ensures
        m.rows() == SIDE,
        m.cols() == SIDE,
        forall|i: int, j: int|
            0 <= i < SIDE && 0 <= j < SIDE ==> #[trigger] m.at(i, j) == horizontal_cell(
                row as int,
                col_start as int,
                col_end as int,
                i,
                j,
            ),
{
    let mut factor = DMat::new_zeros(SIDE, SIDE);
    let mut col: usize = col_start;
    while col < col_end
        invariant
            col_start < col_end ==> row < SIDE && col_end <= SIDE,
            col_start <= col,
            col_start < col_end ==> col <= col_end,
            col_start >= col_end ==> col == col_start,
            factor.rows() == SIDE,
            factor.cols() == SIDE,
            forall|i: int, j: int|
                0 <= i < SIDE && 0 <= j < SIDE ==> #[trigger] factor.at(i, j) == horizontal_cell(
                    row as int,
                    col_start as int,
                    col as int,
                    i,
                    j,
                ),
        decreases col_end - col,
    {
        factor.set(row, col, ONE);
        col += 1;
    }
    factor
}

/// An image with ones in column `col`, in the rows from `row_start` up to
/// but not including `row_end`, and zeros elsewhere. A line that has cells
/// must lie inside the image.
pub fn vertical_line(row_start: usize, row_end: usize, col: usize) -> (m: DMat)
    requires
        row_start < row_end ==> col < SIDE && row_end <= SIDE,
    ensures
        m.rows() == SIDE,
        m.cols() == SIDE,
        forall|i: int, j: int|
            0 <= i < SIDE && 0 <= j < SIDE ==> #[trigger] m.at(i, j) == vertical_cell(
                row_start as int,
                row_end as int,
                col as int,
                i,
                j,
            ),
{
    let mut factor = DMat::new_zeros(SIDE, SIDE);
    let mut row: usize = row_start;
    while row < row_end
        invariant
            row_start < row_end ==> col < SIDE && row_end <= SIDE,
            row_start <= row,
            row_start < row_end ==> row <= row_end,
            row_start >= row_end ==> row == row_start,
            factor.rows() == SIDE,
            factor.cols() == SIDE,
            forall|i: int, j: int|
                0 <= i < SIDE && 0 <= j < SIDE ==> #[trigger] factor.at(i, j) == vertical_cell(
                    row_start as int,
                    row as int,
                    col as int,
                    i,
                    j,
                ),
        decreases row_end - row,
    {
        factor.set(row, col, ONE);
        row += 1;
    }
    factor
}

} // verus!
