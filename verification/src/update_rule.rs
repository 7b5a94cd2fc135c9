//! The multiplicative update rule as a list of dense products and cellwise
//! quotients.
//!
//! A numeric backend carries the list out on numbers; the list itself, the
//! shapes of the matrices it names, and the order in which they are written
//! and read are fixed here.

use vstd::prelude::*;

verus! {

/// A matrix that takes part in an update step.
#[derive(Clone, Copy, Debug, PartialEq, Eq, Hash, Structural)]
pub enum Slot {
    /// The samples, one per row.
    Samples,
    /// The hidden matrix as it stands before the step.
    Hidden,
    /// The weights as they stand before the step.
    Weights,
    /// The orthogonality matrix.
    Gamma,
    /// `Samples * Hidden^T`.
    WeightsDividend,
    /// `Weights * Hidden`.
    Reconstruction,
    /// `Weights * Hidden * Hidden^T`.
    WeightsDivisor,
    /// `Weights^T * Samples`.
    HiddenDividend,
    /// `Weights^T * Weights`.
    Gram,
    /// `Weights^T * Weights * Hidden + Gamma * Hidden`.
    HiddenDivisor,
}

/// One dense product: `target <- op(left) * op(right)`, or
/// `target <- target + op(left) * op(right)` where `accumulate` is set. `op`
/// transposes a matrix where its flag is set and leaves it alone otherwise.
#[derive(Clone, Copy, Debug, PartialEq, Eq, Structural)]
pub struct Product {
    pub left: Slot,
    pub left_transposed: bool,
    pub right: Slot,
    pub right_transposed: bool,
    pub target: Slot,
    pub accumulate: bool,
}

/// One cellwise quotient: the new value of each cell of `factor` is
/// `factor * dividend / safe(divisor)`, taken cell by cell, where `safe`
/// replaces a zero by the smallest positive normal number.
#[derive(Clone, Copy, Debug, PartialEq, Eq, Structural)]
pub struct Quotient {
    pub factor: Slot,
    pub dividend: Slot,
    pub divisor: Slot,
}

/// Rows and columns of a matrix of an update step, for an engine with
/// `nhidden` hidden variables, `nobserved` observed variables and `nsamples`
/// samples.
pub open spec fn slot_shape(slot: Slot, nhidden: nat, nobserved: nat, nsamples: nat) -> (nat, nat) {
    match slot {
        Slot::Samples => (nsamples, nobserved),
        Slot::Hidden => (nhidden, nobserved),
        Slot::Weights => (nsamples, nhidden),
        Slot::Gamma => (nhidden, nhidden),
        Slot::WeightsDividend => (nsamples, nhidden),
        Slot::Reconstruction => (nsamples, nobserved),
        Slot::WeightsDivisor => (nsamples, nhidden),
        Slot::HiddenDividend => (nhidden, nobserved),
        Slot::Gram => (nhidden, nhidden),
        Slot::HiddenDivisor => (nhidden, nobserved),
    }
}

/// A shape, transposed where `transposed` is set.
pub open spec fn op_shape(shape: (nat, nat), transposed: bool) -> (nat, nat) {
    if transposed {
        (shape.1, shape.0)
    } else {
        shape
    }
}

/// The matrices that a step is given: the samples, both factors and the
/// orthogonality matrix. Every other matrix is scratch.
pub open spec fn is_input(slot: Slot) -> bool {
    slot == Slot::Samples || slot == Slot::Hidden || slot == Slot::Weights || slot == Slot::Gamma
}

/// The dense products of one update step, in the order in which they are
/// carried out.
pub open spec fn products() -> Seq<Product> {
    seq![
        Product {
            left: Slot::Samples,
            left_transposed: false,
            right: Slot::Hidden,
            right_transposed: true,
            target: Slot::WeightsDividend,
            accumulate: false,
        },
        Product {
            left: Slot::Weights,
            left_transposed: false,
            right: Slot::Hidden,
            right_transposed: false,
            target: Slot::Reconstruction,
            accumulate: false,
        },
        Product {
            left: Slot::Reconstruction,
            left_transposed: false,
            right: Slot::Hidden,
            right_transposed: true,
            target: Slot::WeightsDivisor,
            accumulate: false,
        },
        Product {
            left: Slot::Weights,
            left_transposed: true,
            right: Slot::Samples,
            right_transposed: false,
            target: Slot::HiddenDividend,
            accumulate: false,
        },
        Product {
            left: Slot::Weights,
            left_transposed: true,
            right: Slot::Weights,
            right_transposed: false,
            target: Slot::Gram,
            accumulate: false,
        },
        Product {
            left: Slot::Gram,
            left_transposed: false,
            right: Slot::Hidden,
            right_transposed: false,
            target: Slot::HiddenDivisor,
            accumulate: false,
        },
        Product {
            left: Slot::Gamma,
            left_transposed: false,
            right: Slot::Hidden,
            right_transposed: false,
            target: Slot::HiddenDivisor,
            accumulate: true,
        },
    ]
}

/// The cellwise quotients of one update step: first the one for the
/// weights, then the one for the hidden matrix. Both are taken after the
/// last product.
pub open spec fn quotients() -> Seq<Quotient> {
    seq![
        Quotient {
            factor: Slot::Weights,
            dividend: Slot::WeightsDividend,
            divisor: Slot::WeightsDivisor,
        },
        Quotient {
            factor: Slot::Hidden,
            dividend: Slot::HiddenDividend,
            divisor: Slot::HiddenDivisor,
        },
    ]
}

/// The columns of the left operand are the rows of the right one, and the
/// target has the rows of the left operand and the columns of the right one.
pub open spec fn well_shaped(p: Product, nhidden: nat, nobserved: nat, nsamples: nat) -> bool {
    let left = op_shape(slot_shape(p.left, nhidden, nobserved, nsamples), p.left_transposed);
    let right = op_shape(slot_shape(p.right, nhidden, nobserved, nsamples), p.right_transposed);
    &&& left.1 == right.0
    &&& slot_shape(p.target, nhidden, nobserved, nsamples) == (left.0, right.1)
}

/// One of the first `count` products writes `slot` without reading it.
pub open spec fn written_by(count: int, slot: Slot) -> bool {
    exists|k: int|
        0 <= k < count && k < products().len() && (#[trigger] products()[k]).target == slot
            && !products()[k].accumulate
}

/// `slot` holds its value when the product at position `count` starts: it
/// is given to the step, or an earlier product has written it.
pub open spec fn ready_at(count: int, slot: Slot) -> bool {
    is_input(slot) || written_by(count, slot)
}

/// Whatever the dimensions of the engine, the operands of every product can
/// be multiplied and the result fits its target.
pub proof fn lemma_products_are_well_shaped(k: int, nhidden: nat, nobserved: nat, nsamples: nat)
    requires
        0 <= k < products().len(),
    ensures
        well_shaped(products()[k], nhidden, nobserved, nsamples),
{
}

/// Every product reads only what holds its value by then: a scratch matrix
/// is written in full before it is read, and is added to only after it has
/// been written.
pub proof fn lemma_products_read_what_is_ready(k: int)
    requires
        0 <= k < products().len(),
    ensures
        ready_at(k, products()[k].left),
        ready_at(k, products()[k].right),
        products()[k].accumulate ==> written_by(k, products()[k].target),
{
    if k == 2 {
        assert(products()[1].target == Slot::Reconstruction);
    }
    if k == 5 {
        assert(products()[4].target == Slot::Gram);
    }
    if k == 6 {
        assert(products()[5].target == Slot::HiddenDivisor);
    }
}

/// No product writes a matrix that the step is given. So every product, and
/// with it every dividend and every divisor, is computed from the factors as
/// they stand before the step, whichever factor is stored first.
pub proof fn lemma_products_leave_the_inputs(k: int)
    requires
        0 <= k < products().len(),
    ensures
        !is_input(products()[k].target),
{
}

/// Each quotient divides a factor by matrices of the factor's own shape,
/// both of them written by the products.
pub proof fn lemma_quotients_are_well_shaped(q: int, nhidden: nat, nobserved: nat, nsamples: nat)
    requires
        0 <= q < quotients().len(),
    ensures
        slot_shape(quotients()[q].dividend, nhidden, nobserved, nsamples) == slot_shape(
            quotients()[q].factor,
            nhidden,
            nobserved,
            nsamples,
        ),
        slot_shape(quotients()[q].divisor, nhidden, nobserved, nsamples) == slot_shape(
            quotients()[q].factor,
            nhidden,
            nobserved,
            nsamples,
        ),
        written_by(products().len() as int, quotients()[q].dividend),
        written_by(products().len() as int, quotients()[q].divisor),
        quotients()[q].factor == Slot::Weights || quotients()[q].factor == Slot::Hidden,
{
    if q == 0 {
        assert(products()[0].target == Slot::WeightsDividend);
        assert(products()[2].target == Slot::WeightsDivisor);
    } else {
        assert(products()[3].target == Slot::HiddenDividend);
        assert(products()[5].target == Slot::HiddenDivisor);
    }
}

/// The dense products of one update step, in the order in which they are to
/// be carried out.
pub fn update_products() -> (list: Vec<Product>)
    ensures
        list@ == products(),
{
    let list = vec![
        Product {
            left: Slot::Samples,
            left_transposed: false,
            right: Slot::Hidden,
            right_transposed: true,
            target: Slot::WeightsDividend,
            accumulate: false,
        },
        Product {
            left: Slot::Weights,
            left_transposed: false,
            right: Slot::Hidden,
            right_transposed: false,
            target: Slot::Reconstruction,
            accumulate: false,
        },
        Product {
            left: Slot::Reconstruction,
            left_transposed: false,
            right: Slot::Hidden,
            right_transposed: true,
            target: Slot::WeightsDivisor,
            accumulate: false,
        },
        Product {
            left: Slot::Weights,
            left_transposed: true,
            right: Slot::Samples,
            right_transposed: false,
            target: Slot::HiddenDividend,
            accumulate: false,
        },
        Product {
            left: Slot::Weights,
            left_transposed: true,
            right: Slot::Weights,
            right_transposed: false,
            target: Slot::Gram,
            accumulate: false,
        },
        Product {
            left: Slot::Gram,
            left_transposed: false,
            right: Slot::Hidden,
            right_transposed: false,
            target: Slot::HiddenDivisor,
            accumulate: false,
        },
        Product {
            left: Slot::Gamma,
            left_transposed: false,
            right: Slot::Hidden,
            right_transposed: false,
            target: Slot::HiddenDivisor,
            accumulate: true,
        },
    ];
    assert(list@ =~= products());
    list
}

/// The cellwise quotients of one update step: first the one for the
/// weights, then the one for the hidden matrix.
pub fn update_quotients() -> (list: Vec<Quotient>)
    ensures
        list@ == quotients(),
{
    let list = vec![
        Quotient {
            factor: Slot::Weights,
            dividend: Slot::WeightsDividend,
            divisor: Slot::WeightsDivisor,
        },
        Quotient {
            factor: Slot::Hidden,
            dividend: Slot::HiddenDividend,
            divisor: Slot::HiddenDivisor,
        },
    ];
    assert(list@ =~= quotients());
    list
}

} // verus!
