//! Batch factorization with an orthogonality penalty on the hidden matrix.
//!
//! One update step replaces both factors at once:
//!
//! ```text
//! W[i,j] <- W[i,j] * (S Ht)[i,j] / safe((W H Ht)[i,j])
//! H[i,j] <- H[i,j] * (Wt S)[i,j] / safe((Wt W H + G H)[i,j])
//! ```
//!
//! where `S` is the samples matrix, `G` is the orthogonality matrix and
//! `safe` replaces a zero by the smallest positive normal number. Both
//! right-hand sides are taken from the factors as they were before the step.
//!
//! The engine holds the factors, decides which samples it accepts, builds
//! `G`, and stores the quotients, replacing each zero among them. The
//! products and quotients are listed in [`crate::update_rule`] and carried
//! out on numbers by the caller's numeric backend, which guards each divisor
//! with [`crate::bits::avoid_zero`].

use crate::array::{array_dim, lemma_row_major_in_bounds, shape_fits, Array};
use crate::bits::{positive, unit, zero, POSITIVE_ZERO};
use crate::error::NmfError;
use crate::update_rule::{slot_shape, Slot};
use vstd::prelude::*;

verus! {

/// Shape of a container, as a tuple.
pub trait ShapeAsTuple<T> {
    /// The shape that `shape_as_tuple` reports.
    spec fn shape(&self) -> T;

    /// Reports the shape.
    fn shape_as_tuple(&self) -> (s: T)
        ensures
            s == self.shape(),
    ;
}

impl ShapeAsTuple<(usize, usize)> for Array {
    open spec fn shape(&self) -> (usize, usize) {
        array_dim(*self)
    }

    /// Rows first, columns second.
    fn shape_as_tuple(&self) -> (s: (usize, usize)) {
        (self.nrows(), self.ncols())
    }
}

/// Tells whether two arrays have the same number of rows and the same
/// number of columns.
fn same_shape(a: &Array, b: &Array) -> (r: bool)
    ensures
        r == a.same_shape(*b),
{
    let (a_rows, a_cols) = a.shape_as_tuple();
    let (b_rows, b_cols) = b.shape_as_tuple();
    a_rows == b_rows && a_cols == b_cols
}

/// The cell in row `i`, column `j`, of the orthogonality matrix for the
/// penalty weight `alpha`: zero on the diagonal, `alpha` everywhere else.
pub open spec fn gamma_cell(i: int, j: int, alpha: u64) -> u64 {
    if i == j {
        POSITIVE_ZERO
    } else {
        alpha
    }
}

/// The orthogonality matrix is symmetric.
pub proof fn lemma_gamma_is_symmetric(i: int, j: int, alpha: u64)
    ensures
        gamma_cell(i, j, alpha) == gamma_cell(j, i, alpha),
{
}

/// With a penalty weight of zero the orthogonality matrix is the zero
/// matrix, so its product with the hidden matrix contributes nothing to the
/// divisor.
pub proof fn lemma_gamma_vanishes_at_zero(i: int, j: int, alpha: u64)
    requires
        zero(alpha),
    ensures
        zero(gamma_cell(i, j, alpha)),
{
}

/// The factors of a batch factorization: `weights * hidden` approximates
/// the samples.
pub struct OrthogonalNMFBlas {
    /// Maps hidden variables (one per row) to observed variables (one per
    /// column).
    pub hidden: Array,
    /// Maps samples (one per row) to hidden variables (one per column).
    pub weights: Array,
}

impl OrthogonalNMFBlas {
    /// The factors can be multiplied: the hidden matrix has one row for each
    /// column of the weights.
    pub open spec fn wf(&self) -> bool {
        self.hidden.rows() == self.weights.cols()
    }

    /// `samples` has one row for each sample and one column for each
    /// observed variable of this engine.
    pub open spec fn accepts(&self, samples: &Array) -> bool {
        &&& samples.rows() == self.weights.rows()
        &&& samples.cols() == self.hidden.cols()
    }

    /// An engine whose factors are filled from `draws`, numbers drawn from
    /// `(0, 1]`. The draws are used up in order: first the hidden matrix, row
    /// after row and left to right within a row, then the weights in the same
    /// way.
    pub fn init_random01(
        nhidden: usize,
        nobserved: usize,
        nsamples: usize,
        draws: &Vec<u64>,
    ) -> (engine: OrthogonalNMFBlas)
        requires
            shape_fits(nhidden as nat, nobserved as nat),
            shape_fits(nsamples as nat, nhidden as nat),
            draws.len() == nhidden * nobserved + nsamples * nhidden,
            forall|k: int| 0 <= k < draws.len() ==> unit(#[trigger] draws[k]),
        ensures
            engine.wf(),
            engine.hidden.rows() == nhidden,
            engine.hidden.cols() == nobserved,
            engine.weights.rows() == nsamples,
            engine.weights.cols() == nhidden,
            engine.hidden.reads(draws@, 0),
            engine.weights.reads(draws@, nhidden * nobserved),
            engine.hidden.all_unit(),
            engine.weights.all_unit(),
            engine.hidden.all_positive(),
            engine.weights.all_positive(),
    {
        assert(nhidden * nobserved <= isize::MAX) by (nonlinear_arith)
            requires
                nhidden * nobserved * 8 <= isize::MAX,
        ;
        let mut hidden = Array::zeros(nhidden, nobserved);
        hidden.fill_from(draws, 0);
        let mut weights = Array::zeros(nsamples, nhidden);
        weights.fill_from(draws, nhidden * nobserved);
        proof {
            assert forall|i: int, j: int| 0 <= i < nhidden && 0 <= j < nobserved implies {
                &&& unit(#[trigger] hidden.at(i, j))
                &&& positive(hidden.at(i, j))
            } by {
                lemma_row_major_in_bounds(i, j, nhidden as int, nobserved as int);
            }
            assert forall|i: int, j: int| 0 <= i < nsamples && 0 <= j < nhidden implies {
                &&& unit(#[trigger] weights.at(i, j))
                &&& positive(weights.at(i, j))
            } by {
                lemma_row_major_in_bounds(i, j, nsamples as int, nhidden as int);
            }
        }
        Self::init(hidden, weights)
    }

    /// An engine that starts from the given factors.
    pub fn init(hidden: Array, weights: Array) -> (engine: OrthogonalNMFBlas)
        requires
            hidden.rows() == weights.cols(),
        ensures
            engine.wf(),
            engine.hidden == hidden,
            engine.weights == weights,
    {
        OrthogonalNMFBlas { hidden, weights }
    }

    /// Number of observed variables.
    pub fn nobserved(&self) -> (n: usize)
        ensures
            n == self.hidden.cols(),
    {
        self.hidden.shape_as_tuple().1
    }

    /// Number of hidden variables.
    pub fn nhidden(&self) -> (n: usize)
        ensures
            n == self.hidden.rows(),
    {
        self.hidden.shape_as_tuple().0
    }

    /// Number of samples.
    pub fn nsamples(&self) -> (n: usize)
        ensures
            n == self.weights.rows(),
    {
        self.weights.shape_as_tuple().0
    }

    /// The hidden matrix as it stands.
    pub fn hidden(&self) -> (h: &Array)
        ensures
            *h == self.hidden,
    {
        &self.hidden
    }

    /// The weights as they stand.
    pub fn weights(&self) -> (w: &Array)
        ensures
            *w == self.weights,
    {
        &self.weights
    }

    /// Rows and columns that a matrix of an update step has for this
    /// engine.
    pub fn shape_of(&self, slot: Slot) -> (s: (usize, usize))
        ensures
            (s.0 as nat, s.1 as nat) == slot_shape(
                slot,
                self.hidden.rows(),
                self.hidden.cols(),
                self.weights.rows(),
            ),
    {
        let nhidden: usize = self.nhidden();
        let nobserved: usize = self.nobserved();
        let nsamples: usize = self.nsamples();
        match slot {
            Slot::Samples => (nsamples, nobserved),
            Slot::Hidden => (nhidden, nobserved),
            Slot::Weights => (nsamples, nhidden),
            Slot::Gamma => (nhidden, nhidden),
            Slot::WeightsDividend => (nsamples, nhidden),
            Slot::Reconstruction => (nsamples, nobserved),
            Slot::WeightsDivisor => (nsamples, nhidden),
            Slot::HiddenDividend => (nhidden, nobserved),
            Slot::Gram => (nhidden, nhidden),
            Slot::HiddenDivisor => (nhidden, nobserved),
        }
    }

    /// Accepts a samples matrix of `nsamples` rows and `nobserved` columns,
    /// and rejects every other shape.
    pub fn check_samples(&self, samples: &Array) -> (r: Result<(), NmfError>)
        ensures
            r is Ok <==> self.accepts(samples),
            r is Err ==> r == Err::<(), NmfError>(NmfError::DimensionMismatch),
    {
        let (rows, cols) = samples.shape_as_tuple();
        if rows == self.nsamples() && cols == self.nobserved() {
            Ok(())
        } else {
            Err(NmfError::DimensionMismatch)
        }
    }

    /// The orthogonality matrix for the penalty weight `alpha`: one row and
    /// one column for each hidden variable, zero on the diagonal and `alpha`
    /// everywhere else.
    pub fn gamma(&self, alpha: u64) -> (g: Array)
        requires
            shape_fits(self.hidden.rows(), self.hidden.rows()),
        ensures
            g.rows() == self.hidden.rows(),
            g.cols() == self.hidden.rows(),
            forall|i: int, j: int| g.has(i, j) ==> #[trigger] g.at(i, j) == gamma_cell(i, j, alpha),
    {
        let n: usize = self.nhidden();
        let mut g = Array::zeros(n, n);
        let mut i: usize = 0;
        while i < n
            invariant
                i <= n,
                g.rows() == n,
                g.cols() == n,
                forall|r: int, c: int|
                    0 <= r < i && 0 <= c < n ==> #[trigger] g.at(r, c) == gamma_cell(r, c, alpha),
                forall|r: int, c: int|
                    i <= r < n && 0 <= c < n ==> #[trigger] g.at(r, c) == POSITIVE_ZERO,
            decreases n - i,
        {
            let mut j: usize = 0;
            while j < n
                invariant
                    i < n,
                    j <= n,
                    g.rows() == n,
                    g.cols() == n,
                    forall|r: int, c: int|
                        (0 <= r < i && 0 <= c < n) || (r == i && 0 <= c < j)
                            ==> #[trigger] g.at(r, c) == gamma_cell(r, c, alpha),
                    forall|r: int, c: int|
                        (i < r < n && 0 <= c < n) || (r == i && j <= c < n)
                            ==> #[trigger] g.at(r, c) == POSITIVE_ZERO,
                decreases n - j,
            {
                if i != j {
                    g.set(i, j, alpha);
                }
                j += 1;
            }
            i += 1;
        }
        g
    }

    /// Completes one update step. `weights_ratio` and `hidden_ratio` are the
    /// quotients of the step, computed from the factors as they stand and
    /// from `samples`. Both factors are replaced together, each cell by its
    /// quotient, or by the smallest positive normal number where the quotient
    /// is zero. A matrix of the wrong shape is rejected and nothing changes.
    pub fn iterate(
        &mut self,
        samples: &Array,
        weights_ratio: Array,
        hidden_ratio: Array,
    ) -> (r: Result<(), NmfError>)
        ensures
            r is Ok <==> {
                &&& old(self).accepts(samples)
                &&& weights_ratio.same_shape(old(self).weights)
                &&& hidden_ratio.same_shape(old(self).hidden)
            },
            r is Err ==> r == Err::<(), NmfError>(NmfError::DimensionMismatch),
            r is Err ==> *final(self) == *old(self),
            final(self).hidden.same_shape(old(self).hidden),
            final(self).weights.same_shape(old(self).weights),
            old(self).wf() ==> final(self).wf(),
            r is Ok ==> final(self).weights.guards(weights_ratio),
            r is Ok ==> final(self).hidden.guards(hidden_ratio),
            r is Ok ==> final(self).weights.all_nonzero() && final(self).hidden.all_nonzero(),
            r is Ok && weights_ratio.all_nonnegative() ==> final(self).weights.all_positive(),
            r is Ok && hidden_ratio.all_nonnegative() ==> final(self).hidden.all_positive(),
    {
        if self.check_samples(samples).is_err() {
            return Err(NmfError::DimensionMismatch);
        }
        if !same_shape(&weights_ratio, &self.weights) || !same_shape(&hidden_ratio, &self.hidden) {
            return Err(NmfError::DimensionMismatch);
        }
        let mut weights = weights_ratio;
        weights.avoid_zeros();
        let mut hidden = hidden_ratio;
        hidden.avoid_zeros();
        self.weights = weights;
        self.hidden = hidden;
        Ok(())
    }
}

} // verus!
