//! Dense row-by-column matrices of 64-bit words that can grow by rows,
//! stored by `nalgebra`.

use crate::array::shape_fits;
use crate::bits::{avoid_zero, nonnegative, positive, safe, zero};
use crate::orthogonal_nmf_blas::ShapeAsTuple;
use vstd::prelude::*;

verus! {

/// A matrix of 64-bit words with a number of rows and of columns chosen at
/// run time.
///
/// The storage is a `nalgebra::DMatrix<u64>`; what it holds is known to the
/// verifier only through [`dmat_shape`] and [`dmat_cells`].
#[verifier::external_body]
pub struct DMat {
    inner: nalgebra::DMatrix<u64>,
}

/// The number of rows and the number of columns of a matrix, as
/// `nalgebra`'s `shape` reports them.
pub uninterp spec fn dmat_shape(m: DMat) -> (usize, usize);

/// The word at each index `(row, column)` of a matrix, as `nalgebra`'s
/// indexing by `(row, column)` reads it.
pub uninterp spec fn dmat_cells(m: DMat) -> Map<(int, int), u64>;

/// Calls `nalgebra::DMatrix::zeros`. Trusted: the result has the shape asked
/// for and reads zero at every index. The shape is required to fit, since
/// the number of words is computed as a product and then allocated.
#[verifier::external_body]
fn nalgebra_zeros(rows: usize, cols: usize) -> (m: DMat)
    requires
        shape_fits(rows as nat, cols as nat),
    ensures
        dmat_shape(m) == (rows, cols),
        forall|i: int, j: int|
            0 <= i < rows && 0 <= j < cols ==> #[trigger] dmat_cells(m)[(i, j)] == 0,
{
    DMat { inner: nalgebra::DMatrix::zeros(rows, cols) }
}

/// Calls `shape` of `nalgebra`. Trusted: the pair returned is the matrix's
/// number of rows and number of columns.
#[verifier::external_body]
fn nalgebra_shape(m: &DMat) -> (s: (usize, usize))
    ensures
        s == dmat_shape(*m),
{
    m.inner.shape()
}

/// Reads `m[(i, j)]` of `nalgebra`. Trusted: the result is the word at that
/// index. The index is required to be in bounds, since indexing panics
/// otherwise.
#[verifier::external_body]
fn nalgebra_get(m: &DMat, i: usize, j: usize) -> (v: u64)
    requires
        i < dmat_shape(*m).0,
        j < dmat_shape(*m).1,
    ensures
        v == dmat_cells(*m)[(i as int, j as int)],
{
    m.inner[(i, j)]
}

/// Writes `m[(i, j)]` of `nalgebra`. Trusted: the shape stays, the word at
/// that index becomes `v`, and every other word stays. The index is required
/// to be in bounds, since indexing panics otherwise.
#[verifier::external_body]
fn nalgebra_set(m: &mut DMat, i: usize, j: usize, v: u64)
    requires
        i < dmat_shape(*old(m)).0,
        j < dmat_shape(*old(m)).1,
    ensures
        dmat_shape(*final(m)) == dmat_shape(*old(m)),
        dmat_cells(*final(m)) == dmat_cells(*old(m)).insert((i as int, j as int), v),
{
    m.inner[(i, j)] = v;
}

/// Calls `resize_vertically_mut` of `nalgebra`, to grow only. Trusted: the
/// matrix gets `rows` rows and keeps its columns, every word that it had
/// stays at its index, and every word of a row that is new is `v`. The new
/// shape is required to fit, since it is allocated.
#[verifier::external_body]
fn nalgebra_resize_vertically(m: &mut DMat, rows: usize, v: u64)
    requires
        dmat_shape(*old(m)).0 <= rows,
        shape_fits(rows as nat, dmat_shape(*old(m)).1 as nat),
    ensures
        dmat_shape(*final(m)) == (rows, dmat_shape(*old(m)).1),
        forall|i: int, j: int|
            0 <= i < dmat_shape(*old(m)).0 && 0 <= j < dmat_shape(*old(m)).1
                ==> #[trigger] dmat_cells(*final(m))[(i, j)] == dmat_cells(*old(m))[(i, j)],
        forall|i: int, j: int|
            dmat_shape(*old(m)).0 <= i < rows && 0 <= j < dmat_shape(*old(m)).1
                ==> #[trigger] dmat_cells(*final(m))[(i, j)] == v,
{
    m.inner.resize_vertically_mut(rows, v);
}

impl DMat {
    /// Number of rows.
    pub open spec fn rows(&self) -> nat {
        dmat_shape(*self).0 as nat
    }

    /// Number of columns.
    pub open spec fn cols(&self) -> nat {
        dmat_shape(*self).1 as nat
    }

    /// The word in row `i`, column `j`.
    pub open spec fn at(&self, i: int, j: int) -> u64 {
        dmat_cells(*self)[(i, j)]
    }

    /// Row `i`, column `j`, is a cell of this matrix.
    pub open spec fn has(&self, i: int, j: int) -> bool {
        0 <= i < self.rows() && 0 <= j < self.cols()
    }

    /// Both matrices have the same number of rows and of columns.
    pub open spec fn same_shape(&self, other: DMat) -> bool {
        self.rows() == other.rows() && self.cols() == other.cols()
    }

    /// This matrix is `source` after zero avoidance: it has the shape of
    /// `source`, the smallest positive normal number where `source` has a
    /// zero, and the word of `source` in every other cell.
    pub open spec fn guards(&self, source: DMat) -> bool {
        &&& self.same_shape(source)
        &&& forall|i: int, j: int|
            self.has(i, j) ==> #[trigger] self.at(i, j) == safe(source.at(i, j))
    }

    /// This matrix is `source` with `count` rows appended below the last
    /// one: the cells of `source` are as they were, and every cell of a new
    /// row holds `v`.
    pub open spec fn extends(&self, source: DMat, count: nat, v: u64) -> bool {
        &&& self.rows() == source.rows() + count
        &&& self.cols() == source.cols()
        &&& forall|i: int, j: int|
            source.has(i, j) ==> #[trigger] self.at(i, j) == source.at(i, j)
        &&& forall|i: int, j: int|
            self.has(i, j) && source.rows() <= i ==> #[trigger] self.at(i, j) == v
    }

    /// No cell encodes a zero.
    pub open spec fn all_nonzero(&self) -> bool {
        forall|i: int, j: int| self.has(i, j) ==> !zero(#[trigger] self.at(i, j))
    }

    /// Every cell encodes a number greater than zero.
    pub open spec fn all_positive(&self) -> bool {
        forall|i: int, j: int| self.has(i, j) ==> positive(#[trigger] self.at(i, j))
    }

    /// Every cell encodes a number that is zero or greater than zero.
    pub open spec fn all_nonnegative(&self) -> bool {
        forall|i: int, j: int| self.has(i, j) ==> nonnegative(#[trigger] self.at(i, j))
    }

    /// A matrix of the given shape with a zero word, the encoding of `+0.0`,
    /// everywhere.
    pub fn new_zeros(rows: usize, cols: usize) -> (m: DMat)
        requires
            shape_fits(rows as nat, cols as nat),
        ensures
            m.rows() == rows,
            m.cols() == cols,
            forall|i: int, j: int| m.has(i, j) ==> #[trigger] m.at(i, j) == 0,
            m@ == Seq::new(rows as nat, |i: int| Seq::new(cols as nat, |j: int| 0u64)),
    {
        let m = nalgebra_zeros(rows, cols);
        assert(m@ =~~= Seq::new(rows as nat, |i: int| Seq::new(cols as nat, |j: int| 0u64)));
        m
    }

    /// Number of rows.
    pub fn nrows(&self) -> (n: usize)
        ensures
            n == self.rows(),
    {
        nalgebra_shape(self).0
    }

    /// Number of columns.
    pub fn ncols(&self) -> (n: usize)
        ensures
            n == self.cols(),
    {
        nalgebra_shape(self).1
    }

    /// The word in row `i`, column `j`.
    pub fn get(&self, i: usize, j: usize) -> (v: u64)
        requires
            self.has(i as int, j as int),
        ensures
            v == self.at(i as int, j as int),
    {
        nalgebra_get(self, i, j)
    }

    /// Stores `v` in row `i`, column `j`, and leaves every other word alone.
    pub fn set(&mut self, i: usize, j: usize, v: u64)
        requires
            old(self).has(i as int, j as int),
        ensures
            final(self).same_shape(*old(self)),
            final(self).at(i as int, j as int) == v,
            forall|k: int, l: int|
                (k, l) != (i as int, j as int) ==> #[trigger] final(self).at(k, l)
                    == old(self).at(k, l),
    {
        nalgebra_set(self, i, j, v)
    }

    /// Appends `count` rows below the last one, with `v` in each of their
    /// cells, and leaves the rows that were there alone.
    pub fn append_rows(&mut self, count: usize, v: u64)
        requires
            shape_fits((old(self).rows() + count) as nat, old(self).cols()),
        ensures
            final(self).extends(*old(self), count as nat, v),
            final(self)@ == old(self)@ + Seq::new(
                count as nat,
                |i: int| Seq::new(old(self).cols(), |j: int| v),
            ),
    {
        let rows: usize = self.nrows();
        nalgebra_resize_vertically(self, rows + count, v);
        assert(self@ =~~= old(self)@ + Seq::new(
            count as nat,
            |i: int| Seq::new(old(self).cols(), |j: int| v),
        ));
    }

    /// Substitutes, in every cell, the smallest positive normal number for a
    /// zero, and leaves every other cell alone.
    pub fn avoid_zeros(&mut self)
        ensures
            final(self).guards(*old(self)),
            final(self).all_nonzero(),
            old(self).all_nonnegative() ==> final(self).all_positive(),
    {
        let rows: usize = self.nrows();
        let cols: usize = self.ncols();
        let mut i: usize = 0;
        while i < rows
            invariant
                i <= rows,
                rows == self.rows() == old(self).rows(),
                cols == self.cols() == old(self).cols(),
                forall|r: int, c: int|
                    0 <= r < i && 0 <= c < cols ==> #[trigger] self.at(r, c)
                        == safe(old(self).at(r, c)),
                forall|r: int, c: int|
                    i <= r < rows && 0 <= c < cols ==> #[trigger] self.at(r, c)
                        == old(self).at(r, c),
            decreases rows - i,
        {
            let mut j: usize = 0;
            while j < cols
                invariant
                    i < rows,
                    j <= cols,
                    rows == self.rows(),
                    cols == self.cols(),
                    forall|r: int, c: int|
                        (0 <= r < i && 0 <= c < cols) || (r == i && 0 <= c < j)
                            ==> #[trigger] self.at(r, c) == safe(old(self).at(r, c)),
                    forall|r: int, c: int|
                        (i < r < rows && 0 <= c < cols) || (r == i && j <= c < cols)
                            ==> #[trigger] self.at(r, c) == old(self).at(r, c),
                decreases cols - j,
            {
                let word: u64 = self.get(i, j);
                self.set(i, j, avoid_zero(word));
                j += 1;
            }
            i += 1;
        }
    }
}

impl View for DMat {
    type V = Seq<Seq<u64>>;

    /// The rows of the matrix, each a sequence of its words.
    open spec fn view(&self) -> Seq<Seq<u64>> {
        Seq::new(self.rows(), |i: int| Seq::new(self.cols(), |j: int| self.at(i, j)))
    }
}

impl ShapeAsTuple<(usize, usize)> for DMat {
    open spec fn shape(&self) -> (usize, usize) {
        dmat_shape(*self)
    }

    /// Rows first, columns second.
    fn shape_as_tuple(&self) -> (s: (usize, usize)) {
        (self.nrows(), self.ncols())
    }
}

} // verus!
