use vstd::prelude::*;

verus! {

/// Why an engine refused a call.
#[derive(Clone, Copy, Debug, PartialEq, Eq, Structural)]
pub enum NmfError {
    /// A matrix handed to the engine has a shape that disagrees with the
    /// engine's dimensions.
    DimensionMismatch,
}

} // verus!
