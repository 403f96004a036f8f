use vstd::prelude::*;

verus! {

/// Why a rating run cannot start or cannot go on.
#[derive(Clone, Copy, Debug, PartialEq, Eq, Structural)]
pub enum RatingError {
    /// The rating-system identifier names no known system.
    Configuration,
    /// The standings of the contest at this dataset position break the
    /// rank-range partition or name a participant twice.
    MalformedInput { contest_index: usize },
    /// A checkpoint could not be read or written.
    Checkpoint,
    /// A dataset was indexed past its end.
    Bounds,
}

} // verus!
