//! Requests that are not meant to be made.
use vstd::prelude::*;

verus! {

/// What is wrong with a request that no product accepts and that is not answered with an error:
/// the caller is expected to stop.
#[derive(Debug, Clone, Copy, PartialEq, Eq, Structural)]
pub enum Fault {
    /// The rows of the input and those of the weights differ in length.
    LastDimMismatch { input: usize, weight: usize },
    /// The rows of the input are not a multiple of eight long.
    UnalignedRows,
    /// The rows of the output have to be divided among zero experts.
    ZeroTopk,
    /// A size does not fit in a `usize`.
    Overflow,
}

} // verus!
