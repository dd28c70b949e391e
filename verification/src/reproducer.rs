//! Judging an attempt to reproduce a crash.

use crate::errors::FuzzerError;
use vstd::prelude::*;
use vstd::string::StringExecFns;

verus! {

/// Detail of the error of an attempt in which the target did not fail.
pub const NO_CRASH: &'static str = "No crash occurred";

/// What a reproduction attempt amounts to, given what the target returned:
/// a failure of the target reproduces the crash, and the line to show or
/// log is returned; a clean run is a failed reproduction.
pub open spec fn verdict_of(returned: Result<(), FuzzerError>) -> Result<Seq<char>, Seq<char>> {
    match returned {
        Ok(_) => Err(NO_CRASH@),
        Err(failure) => Ok("Crash reproduced: "@ + failure.message_text()),
    }
}

/// Judges a reproduction attempt by what the target returned.
pub fn reproduction_verdict(returned: Result<(), FuzzerError>) -> (verdict: Result<
    String,
    FuzzerError,
>)
    ensures
        match verdict {
            Ok(line) => verdict_of(returned) == Ok::<Seq<char>, Seq<char>>(line@),
            Err(FuzzerError::ReproductionFailed(detail)) => verdict_of(returned) == Err::<
                Seq<char>,
                Seq<char>,
            >(detail@),
            Err(_) => false,
        },
{
    match returned {
        Ok(_) => Err(FuzzerError::ReproductionFailed(String::from_str(NO_CRASH))),
        Err(failure) => {
            let mut line = String::from_str("Crash reproduced: ");
            let message = failure.message();
            line.append(message.as_str());
            Ok(line)
        },
    }
}

} // verus!
