use vstd::prelude::*;

verus! {

/// Why a request could not be turned into predictions.
///
/// Both kinds end the processing of the whole request: no partial list of
/// predictions is ever produced.
#[derive(Debug, Clone, Copy, PartialEq, Eq, Structural)]
pub enum SchemaError {
    /// The sentence boundary at `index` is inverted or reaches past the end
    /// of the text.
    InvalidBoundary { index: usize },
    /// After the leading whitespace of the entity at position `entity` of
    /// sentence `sentence` was skipped, its begin lay past its end.
    OffsetUnitMismatch { sentence: usize, entity: usize },
}

} // verus!
