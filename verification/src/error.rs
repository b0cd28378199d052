//! Error kinds shared by the whole pipeline.

use vstd::prelude::*;

verus! {

/// Every failure the pipeline can report.
///
/// The `u64` payload of `InvalidInput` and `DivergenceSuspected` is the
/// offending starting value (for a rejected range it is the range's start).
#[derive(Clone, Copy, Debug, PartialEq, Eq, Structural)]
pub enum CollatzError {
    /// A starting value of zero, an inverted or empty range, or a value whose
    /// trajectory would overflow `u64` in the `3x + 1` step. Overflow policy:
    /// such inputs are rejected, never wrapped or saturated.
    InvalidInput(u64),
    /// The safety bound on trajectory length was exceeded before reaching 1.
    DivergenceSuspected(u64),
    /// A chart was requested for a dataset with no trajectories.
    EmptyDataset,
    /// The drawing backend failed; raised outside this library.
    RenderFailure,
}

impl CollatzError {
    /// A short diagnostic name for the error kind.
    pub fn kind_name(&self) -> (r: &'static str)
        ensures
            self matches CollatzError::InvalidInput(_) ==> r@ == "invalid input"@,
            self matches CollatzError::DivergenceSuspected(_) ==> r@ == "divergence suspected"@,
            self is EmptyDataset ==> r@ == "empty dataset"@,
            self is RenderFailure ==> r@ == "render failure"@,
    {
        match self {
            CollatzError::InvalidInput(_) => "invalid input",
            CollatzError::DivergenceSuspected(_) => "divergence suspected",
            CollatzError::EmptyDataset => "empty dataset",
            CollatzError::RenderFailure => "render failure",
        }
    }
}

} // verus!
