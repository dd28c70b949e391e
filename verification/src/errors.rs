//! The error type of the engine.

use vstd::prelude::*;
use vstd::string::StringExecFns;

verus! {

/// Everything that can go wrong inside the engine or inside a target.
#[derive(Clone, Debug, PartialEq, Eq)]
pub enum FuzzerError {
    InputGenerationError(String),
    MutationError(String),
    ExecutionError(String),
    TimeoutError,
    CustomError(String),
    ReproductionFailed(String),
}

impl FuzzerError {
    /// The text that describes this error to a reader.
    pub open spec fn message_text(self) -> Seq<char> {
        match self {
            FuzzerError::InputGenerationError(s) => "Input generation error: "@ + s@,
            FuzzerError::MutationError(s) => "Mutation error: "@ + s@,
            FuzzerError::ExecutionError(s) => "Execution error: "@ + s@,
            FuzzerError::TimeoutError => "Timeout occurred"@,
            FuzzerError::CustomError(s) => "Custom error: "@ + s@,
            FuzzerError::ReproductionFailed(s) => "Reproduction failled: "@ + s@,
        }
    }

    /// Renders the error: a fixed prefix naming the kind, then the detail.
    pub fn message(&self) -> (text: String)
        ensures
            text@ == self.message_text(),
    {
        match self {
            FuzzerError::InputGenerationError(s) => prefixed("Input generation error: ", s),
            FuzzerError::MutationError(s) => prefixed("Mutation error: ", s),
            FuzzerError::ExecutionError(s) => prefixed("Execution error: ", s),
            FuzzerError::TimeoutError => String::from_str("Timeout occurred"),
            FuzzerError::CustomError(s) => prefixed("Custom error: ", s),
            FuzzerError::ReproductionFailed(s) => prefixed("Reproduction failled: ", s),
        }
    }
}

/// `prefix` followed by `detail`.
fn prefixed(prefix: &str, detail: &String) -> (text: String)
    ensures
        text@ == prefix@ + detail@,
{
    let mut text = String::from_str(prefix);
    text.append(detail.as_str());
    text
}

} // verus!
