//! The ways in which a generation request can be refused.

use vstd::prelude::*;

verus! {

/// Why a request was refused.
#[derive(Clone, Copy, Debug, PartialEq, Eq, Hash, Structural)]
pub enum GenerateError {
    /// The lower bound on the clause length lies above the upper bound.
    InvalidDistributionParameters,
    /// A clause, or the set of renamed variables, asks for more distinct
    /// variables than there are.
    InsufficientVariables,
    /// A clause without literals was to have one of them made positive.
    DegenerateClauseLength,
}

impl GenerateError {
    /// The text of `description`.
    pub open spec fn description_text(self) -> Seq<char> {
        match self {
            GenerateError::InvalidDistributionParameters => "the lower bound on the clause length is above the upper bound"@,
            GenerateError::InsufficientVariables => "more distinct variables are asked for than there are"@,
            GenerateError::DegenerateClauseLength => "a clause without literals cannot have a positive literal"@,
        }
    }

    /// A sentence that says what was wrong with the request.
    pub fn description(&self) -> (text: &'static str)
        ensures
            text@ == self.description_text(),
    {
        match self {
            GenerateError::InvalidDistributionParameters => "the lower bound on the clause length is above the upper bound",
            GenerateError::InsufficientVariables => "more distinct variables are asked for than there are",
            GenerateError::DegenerateClauseLength => "a clause without literals cannot have a positive literal",
        }
    }
}

} // verus!
