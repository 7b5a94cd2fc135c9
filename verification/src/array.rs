//! Dense row-by-column arrays of 64-bit words, stored by `ndarray`.

use crate::bits::{avoid_zero, nonnegative, positive, safe, unit, zero};
use vstd::prelude::*;

verus! {

/// A two-dimensional array of 64-bit words.
///
/// The storage is an `ndarray::Array2<u64>`; what it holds is known to the
/// verifier only through [`array_dim`] and [`array_cells`].
#[verifier::external_body]
pub struct Array {
    inner: ndarray::Array2<u64>,
}

/// The number of rows and the number of columns of an array, as
/// `ndarray`'s `dim` reports them.
pub uninterp spec fn array_dim(a: Array) -> (usize, usize);

/// The word at each index `(row, column)` of an array, as `ndarray`'s
/// indexing by `[row, column]` reads it.
pub uninterp spec fn array_cells(a: Array) -> Map<(int, int), u64>;

/// What `ndarray` and the allocator can hold: neither axis longer than
/// `isize::MAX`, and no more than `isize::MAX` bytes of eight-byte words.
pub open spec fn shape_fits(rows: nat, cols: nat) -> bool {
    &&& rows <= isize::MAX
    &&& cols <= isize::MAX
    &&& rows * cols * 8 <= isize::MAX
}

/// Tells whether an array or matrix of the given shape can be held.
pub fn fits(rows: usize, cols: usize) -> (r: bool)
    ensures
        r == shape_fits(rows as nat, cols as nat),
{
    let limit: usize = isize::MAX as usize;
    if rows > limit || cols > limit {
        return false;
    }
    match rows.checked_mul(cols) {
        None => false,
        Some(cells) => cells <= limit / 8,
    }
}

/// Calls `ndarray::Array2::zeros`. Trusted: the result has the shape asked
/// for and reads zero at every index. The shape is required to fit, since
/// `zeros` panics when the product of the axis lengths overflows `isize`.
#[verifier::external_body]
fn ndarray_zeros(rows: usize, cols: usize) -> (a: Array)
    requires
        shape_fits(rows as nat, cols as nat),
    ensures
        array_dim(a) == (rows, cols),
        forall|i: int, j: int|
            0 <= i < rows && 0 <= j < cols ==> #[trigger] array_cells(a)[(i, j)] == 0,
{
    Array { inner: ndarray::Array2::zeros((rows, cols)) }
}

/// Calls `dim` of `ndarray`. Trusted: the pair returned is the array's
/// number of rows and number of columns.
#[verifier::external_body]
fn ndarray_dim(a: &Array) -> (d: (usize, usize))
    ensures
        d == array_dim(*a),
{
    a.inner.dim()
}

/// Reads `a[[i, j]]` of `ndarray`. Trusted: the result is the word at that
/// index. The index is required to be in bounds, since indexing panics
/// otherwise.
#[verifier::external_body]
fn ndarray_get(a: &Array, i: usize, j: usize) -> (v: u64)
    requires
        i < array_dim(*a).0,
        j < array_dim(*a).1,
    ensures
        v == array_cells(*a)[(i as int, j as int)],
{
    a.inner[[i, j]]
}

/// Writes `a[[i, j]]` of `ndarray`. Trusted: the shape stays, the word at
/// that index becomes `v`, and every other word stays. The index is required
/// to be in bounds, since indexing panics otherwise.
#[verifier::external_body]
fn ndarray_set(a: &mut Array, i: usize, j: usize, v: u64)
    requires
        i < array_dim(*old(a)).0,
        j < array_dim(*old(a)).1,
    ensures
        array_dim(*final(a)) == array_dim(*old(a)),
        array_cells(*final(a)) == array_cells(*old(a)).insert((i as int, j as int), v),
{
    a.inner[[i, j]] = v;
}

/// Row-major position of the cell in row `i`, column `j`, of an array with
/// `cols` columns.
pub open spec fn row_major(i: int, j: int, cols: int) -> int {
    i * cols + j
}

/// The row-major position of a cell of an array lies inside the array's run
/// of `rows * cols` words.
pub proof fn lemma_row_major_in_bounds(i: int, j: int, rows: int, cols: int)
    requires
        0 <= i < rows,
        0 <= j < cols,
    ensures
        0 <= row_major(i, j, cols) < rows * cols,
{
    assert(i * cols >= 0) by (nonlinear_arith)
        requires
            i >= 0,
            cols >= 0,
    ;
    assert((i + 1) * cols <= rows * cols) by (nonlinear_arith)
        requires
            i + 1 <= rows,
            cols >= 0,
    ;
    assert((i + 1) * cols == i * cols + cols) by (nonlinear_arith);
}

impl Array {
    /// Number of rows.
    pub open spec fn rows(&self) -> nat {
        array_dim(*self).0 as nat
    }

    /// Number of columns.
    pub open spec fn cols(&self) -> nat {
        array_dim(*self).1 as nat
    }

    /// The word in row `i`, column `j`.
    pub open spec fn at(&self, i: int, j: int) -> u64 {
        array_cells(*self)[(i, j)]
    }

    /// Row `i`, column `j`, is a cell of this array.
    pub open spec fn has(&self, i: int, j: int) -> bool {
        0 <= i < self.rows() && 0 <= j < self.cols()
    }

    /// Both arrays have the same number of rows and of columns.
    pub open spec fn same_shape(&self, other: Array) -> bool {
        self.rows() == other.rows() && self.cols() == other.cols()
    }

    /// This array is `source` after zero avoidance: it has the shape of
    /// `source`, the smallest positive normal number where `source` has a
    /// zero, and the word of `source` in every other cell.
    pub open spec fn guards(&self, source: Array) -> bool {
        &&& self.same_shape(source)
        &&& forall|i: int, j: int|
            self.has(i, j) ==> #[trigger] self.at(i, j) == safe(source.at(i, j))
    }

    /// The cells of this array, row after row and left to right within a
    /// row, are the words of `words` from position `start` on.
    pub open spec fn reads(&self, words: Seq<u64>, start: int) -> bool {
        forall|i: int, j: int|
            self.has(i, j) ==> #[trigger] self.at(i, j) == words[start + row_major(
                i,
                j,
                self.cols() as int,
            )]
    }

    /// No cell encodes a zero.
    pub open spec fn all_nonzero(&self) -> bool {
        forall|i: int, j: int| self.has(i, j) ==> !zero(#[trigger] self.at(i, j))
    }

    /// Every cell encodes a number greater than zero.
    pub open spec fn all_positive(&self) -> bool {
        forall|i: int, j: int| self.has(i, j) ==> positive(#[trigger] self.at(i, j))
    }

    /// Every cell encodes a number that is zero or greater than zero.
    pub open spec fn all_nonnegative(&self) -> bool {
        forall|i: int, j: int| self.has(i, j) ==> nonnegative(#[trigger] self.at(i, j))
    }

    /// Every cell encodes a number in `(0, 1]`.
    pub open spec fn all_unit(&self) -> bool {
        forall|i: int, j: int| self.has(i, j) ==> unit(#[trigger] self.at(i, j))
    }

    /// An array of the given shape with a zero word, the encoding of `+0.0`,
    /// everywhere.
    pub fn zeros(rows: usize, cols: usize) -> (a: Array)
        requires
            shape_fits(rows as nat, cols as nat),
        ensures
            a.rows() == rows,
            a.cols() == cols,
            forall|i: int, j: int| a.has(i, j) ==> #[trigger] a.at(i, j) == 0,
            a@ == Seq::new(rows as nat, |i: int| Seq::new(cols as nat, |j: int| 0u64)),
    {
        let a = ndarray_zeros(rows, cols);
        assert(a@ =~~= Seq::new(rows as nat, |i: int| Seq::new(cols as nat, |j: int| 0u64)));
        a
    }

    /// Number of rows.
    pub fn nrows(&self) -> (n: usize)
        ensures
            n == self.rows(),
    {
        ndarray_dim(self).0
    }

    /// Number of columns.
    pub fn ncols(&self) -> (n: usize)
        ensures
            n == self.cols(),
    {
        ndarray_dim(self).1
    }

    /// The word in row `i`, column `j`.
    pub fn get(&self, i: usize, j: usize) -> (v: u64)
        requires
            self.has(i as int, j as int),
        ensures
            v == self.at(i as int, j as int),
    {
        ndarray_get(self, i, j)
    }

    /// Stores `v` in row `i`, column `j`, and leaves every other word alone.
    pub fn set(&mut self, i: usize, j: usize, v: u64)
        requires
            old(self).has(i as int, j as int),
        ensures
            final(self).same_shape(*old(self)),
            final(self).at(i as int, j as int) == v,
            forall|k: int, l: int|
                (k, l) != (i as int, j as int) ==> #[trigger] final(self).at(k, l)
                    == old(self).at(k, l),
    {
        ndarray_set(self, i, j, v)
    }

    /// Overwrites every cell, row after row and left to right within a row,
    /// with the words of `words` from position `start` on.
    pub fn fill_from(&mut self, words: &Vec<u64>, start: usize)
        requires
            start + old(self).rows() * old(self).cols() <= words.len(),
        ensures
            final(self).same_shape(*old(self)),
            final(self).reads(words@, start as int),
    {
        let rows: usize = self.nrows();
        let cols: usize = self.ncols();
        let mut k: usize = start;
        let mut i: usize = 0;
        while i < rows
            invariant
                i <= rows,
                rows == self.rows() == old(self).rows(),
                cols == self.cols() == old(self).cols(),
                start + rows * cols <= words.len(),
                k == start + i * cols,
                forall|r: int, c: int|
                    0 <= r < i && 0 <= c < cols ==> #[trigger] self.at(r, c)
                        == words[start + row_major(r, c, cols as int)],
            decreases rows - i,
        {
            let mut j: usize = 0;
            while j < cols
                invariant
                    i < rows,
                    j <= cols,
                    rows == self.rows(),
                    cols == self.cols(),
                    start + rows * cols <= words.len(),
                    k == start + i * cols + j,
                    forall|r: int, c: int|
                        (0 <= r < i && 0 <= c < cols) || (r == i && 0 <= c < j)
                            ==> #[trigger] self.at(r, c)
                            == words[start + row_major(r, c, cols as int)],
                decreases cols - j,
            {
                proof {
                    lemma_row_major_in_bounds(i as int, j as int, rows as int, cols as int);
                }
                let word: u64 = words[k];
                self.set(i, j, word);
                j += 1;
                k += 1;
            }
            proof {
                assert((i + 1) * cols == i * cols + cols) by (nonlinear_arith);
            }
            i += 1;
        }
    }

    /// Substitutes, in every cell, the smallest positive normal number for a
    /// zero, and leaves every other cell alone.
    pub fn avoid_zeros(&mut self)
        ensures
            final(self).guards(*old(self)),
            final(self).all_nonzero(),
            old(self).all_nonnegative() ==> final(self).all_positive(),
    {
        let rows: usize = self.nrows();
        let cols: usize = self.ncols();
        let mut i: usize = 0;
        while i < rows
            invariant
                i <= rows,
                rows == self.rows() == old(self).rows(),
                cols == self.cols() == old(self).cols(),
                forall|r: int, c: int|
                    0 <= r < i && 0 <= c < cols ==> #[trigger] self.at(r, c)
                        == safe(old(self).at(r, c)),
                forall|r: int, c: int|
                    i <= r < rows && 0 <= c < cols ==> #[trigger] self.at(r, c)
                        == old(self).at(r, c),
            decreases rows - i,
        {
            let mut j: usize = 0;
            while j < cols
                invariant
                    i < rows,
                    j <= cols,
                    rows == self.rows(),
                    cols == self.cols(),
                    forall|r: int, c: int|
                        (0 <= r < i && 0 <= c < cols) || (r == i && 0 <= c < j)
                            ==> #[trigger] self.at(r, c) == safe(old(self).at(r, c)),
                    forall|r: int, c: int|
                        (i < r < rows && 0 <= c < cols) || (r == i && j <= c < cols)
                            ==> #[trigger] self.at(r, c) == old(self).at(r, c),
                decreases cols - j,
            {
                let word: u64 = self.get(i, j);
                self.set(i, j, avoid_zero(word));
                j += 1;
            }
            i += 1;
        }
    }
}

impl View for Array {
    type V = Seq<Seq<u64>>;

    /// The rows of the array, each a sequence of its words.
    open spec fn view(&self) -> Seq<Seq<u64>> {
        Seq::new(self.rows(), |i: int| Seq::new(self.cols(), |j: int| self.at(i, j)))
    }
}

} // verus!
