//! The ways an embedding operation can refuse its input.
use vstd::prelude::*;

verus! {

/// Why an embedding operation refused its input. Every error is reported
/// before anything is changed.
#[derive(Debug, Clone, Copy, PartialEq, Eq, Structural)]
pub enum EmbeddingError {
    /// Construction from a sequence with no elements.
    EmptyInput,
    /// Construction from more elements than an embedding may hold.
    DimensionTooLarge { len: usize },
    /// The element at `index` of the input could not be read as a number.
    NonNumericElement { index: usize },
    /// Two embeddings of different dimensions were given to a pairwise operation.
    DimensionMismatch { left: usize, right: usize },
    /// Normalization of a vector whose components are all zero.
    ZeroVector,
}

} // verus!
