//! Streaming factorization: the hidden matrix keeps its size while the
//! weights gain one row for every observed column that arrives.
//!
//! Use it by repeatedly calling `update` with new observations and
//! inspecting `hidden` and `weights`.

use crate::array::shape_fits;
use crate::bits::{MIN_POSITIVE, POSITIVE_ZERO};
use crate::dmat::DMat;
use crate::error::NmfError;
use crate::orthogonal_nmf_blas::ShapeAsTuple;
use vstd::prelude::*;

verus! {

/// The factors of a streaming factorization.
pub struct OnlineNMF {
    /// Maps hidden variables (one per row) to observed variables (one per
    /// column). Changes on every `update`; stays constant in size.
    pub hidden: DMat,
    /// Maps times (one per row) to hidden variables (one per column). Grows
    /// on every `update`.
    pub weights: DMat,
}

impl OnlineNMF {
    /// The factors can be multiplied, no cell of the hidden matrix is
    /// negative or a NaN, and every weight is greater than zero.
    pub open spec fn wf(&self) -> bool {
        &&& self.hidden.rows() == self.weights.cols()
        &&& self.hidden.all_nonnegative()
        &&& self.weights.all_positive()
    }

    /// `new_observed_columns` has one row for each observed variable of this
    /// engine.
    pub open spec fn accepts(&self, new_observed_columns: &DMat) -> bool {
        new_observed_columns.rows() == self.hidden.cols()
    }

    /// An online factorization that is to find `nhidden` hidden variables
    /// when repeatedly updated with columns of `nobserved` variables. It
    /// starts with a hidden matrix of zeros and without any sample.
    pub fn new(nobserved: usize, nhidden: usize) -> (engine: OnlineNMF)
        requires
            shape_fits(nhidden as nat, nobserved as nat),
        ensures
            engine.wf(),
            engine.hidden.rows() == nhidden,
            engine.hidden.cols() == nobserved,
            engine.weights.rows() == 0,
            engine.weights.cols() == nhidden,
            forall|i: int, j: int|
                engine.hidden.has(i, j) ==> #[trigger] engine.hidden.at(i, j) == POSITIVE_ZERO,
    {
        OnlineNMF {
            hidden: DMat::new_zeros(nhidden, nobserved),
            weights: DMat::new_zeros(0, nhidden),
        }
    }

    /// Number of observed variables.
    pub fn nobserved(&self) -> (n: usize)
        ensures
            n == self.hidden.cols(),
    {
        self.hidden.ncols()
    }

    /// Number of hidden variables.
    pub fn nhidden(&self) -> (n: usize)
        ensures
            n == self.hidden.rows(),
    {
        self.hidden.nrows()
    }

    /// Number of samples taken in so far.
    pub fn nsamples(&self) -> (n: usize)
        ensures
            n == self.weights.rows(),
    {
        self.weights.nrows()
    }

    /// The hidden matrix as it stands.
    pub fn hidden(&self) -> (h: &DMat)
        ensures
            *h == self.hidden,
    {
        &self.hidden
    }

    /// The weights as they stand.
    pub fn weights(&self) -> (w: &DMat)
        ensures
            *w == self.weights,
    {
        &self.weights
    }

    /// Takes in a batch of observations, one per column. The weights gain
    /// one row per column of the batch, filled with the smallest positive
    /// normal number, below the rows they had, which stay as they were. The
    /// hidden matrix keeps its shape, and each of its zeros becomes the
    /// smallest positive normal number. A batch whose number of rows is not
    /// `nobserved` is rejected and nothing changes.
    pub fn update(&mut self, new_observed_columns: &DMat) -> (r: Result<(), NmfError>)
        requires
            old(self).wf(),
            old(self).accepts(new_observed_columns) ==> shape_fits(
                (old(self).weights.rows() + new_observed_columns.cols()) as nat,
                old(self).weights.cols(),
            ),
        ensures
            final(self).wf(),
            r is Ok <==> old(self).accepts(new_observed_columns),
            r is Err ==> r == Err::<(), NmfError>(NmfError::DimensionMismatch),
            r is Err ==> *final(self) == *old(self),
            final(self).hidden.same_shape(old(self).hidden),
            final(self).weights.cols() == old(self).weights.cols(),
            final(self).weights.rows() >= old(self).weights.rows(),
            r is Ok ==> final(self).weights.rows() == old(self).weights.rows()
                + new_observed_columns.cols(),
            r is Ok ==> final(self).hidden.guards(old(self).hidden),
            r is Ok ==> final(self).weights.extends(
                old(self).weights,
                new_observed_columns.cols(),
                MIN_POSITIVE,
            ),
            r is Ok ==> final(self).weights@ == old(self).weights@ + Seq::new(
                new_observed_columns.cols(),
                |i: int| Seq::new(old(self).weights.cols(), |j: int| MIN_POSITIVE),
            ),
            r is Ok ==> final(self).hidden.all_positive() && final(self).weights.all_positive(),
    {
        if new_observed_columns.shape_as_tuple().0 != self.nobserved() {
            return Err(NmfError::DimensionMismatch);
        }
        self.weights.append_rows(new_observed_columns.ncols(), MIN_POSITIVE);
        self.hidden.avoid_zeros();
        Ok(())
    }
}

} // verus!
