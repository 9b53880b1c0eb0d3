//! The errors of the quiz engine.
use vstd::prelude::*;

verus! {

/// Why a question could not be produced.
#[derive(Debug, Clone, Copy, PartialEq, Eq, Structural)]
pub enum QuizError {
    /// The topic has too few records to draw a correct answer and its decoys.
    InsufficientCorpus,
    /// A stored record lacks the single ` -$- ` delimiter or one of its fields.
    MalformedRecord,
    /// Every eligible record has already been the correct answer in this session.
    Exhausted,
}

} // verus!
