//! A tally of run outcomes.

use crate::tally::counted;
use crate::tally::ResultTally;
use crate::utils::ExecutionResult;
use crate::utils::Outcome;
use vstd::prelude::*;

verus! {

/// Counts how often each outcome was seen.
#[derive(Clone, Debug)]
pub struct Analyzer {
    pub results: ResultTally,
}

impl Analyzer {
    /// The count of each outcome seen so far.
    pub open spec fn counts(&self) -> Map<Outcome, nat> {
        self.results@
    }

    /// An analyzer that has seen nothing.
    pub fn new() -> (analyzer: Analyzer)
        ensures
            analyzer.counts() == Map::<Outcome, nat>::empty(),
    {
        Analyzer { results: ResultTally::new() }
    }

    /// Counts `result` once more. Two crashes are the same outcome only if
    /// their descriptions are the same.
    pub fn record_result(&mut self, result: ExecutionResult)
        ensures
            final(self).counts() == counted(old(self).counts(), result@),
    {
        self.results.count(&result);
    }
}

} // verus!
