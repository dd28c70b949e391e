//! Small value types shared by the whole engine.

use vstd::prelude::*;

verus! {

/// The shape of a generated input.
#[derive(Clone, Debug, PartialEq, Eq)]
pub enum InputFormat {
    Binary,
    Text,
    JSON,
    XML,
    Custom(String),
    /// No format was chosen; generation falls back to `Binary`.
    Unspecified,
}

/// How inputs are derived in each iteration.
#[derive(Clone, Copy, Debug, PartialEq, Eq, Structural)]
pub enum FuzzMode {
    Random,
    Mutation,
    Hybrid,
}

impl InputFormat {
    /// A copy of this format.
    pub fn duplicate(&self) -> (copy: InputFormat)
        ensures
            copy == *self,
    {
        match self {
            InputFormat::Binary => InputFormat::Binary,
            InputFormat::Text => InputFormat::Text,
            InputFormat::JSON => InputFormat::JSON,
            InputFormat::XML => InputFormat::XML,
            InputFormat::Custom(name) => InputFormat::Custom(name.clone()),
            InputFormat::Unspecified => InputFormat::Unspecified,
        }
    }
}

impl FuzzMode {
    /// Whether freshly generated inputs are mutated before they are run.
    pub open spec fn mutates(self) -> bool {
        self == FuzzMode::Mutation || self == FuzzMode::Hybrid
    }

    /// Executable form of [`FuzzMode::mutates`].
    pub fn includes_mutation(&self) -> (b: bool)
        ensures
            b == self.mutates(),
    {
        match self {
            FuzzMode::Random => false,
            FuzzMode::Mutation => true,
            FuzzMode::Hybrid => true,
        }
    }
}

/// A length of time: whole seconds and the nanoseconds beyond them.
#[derive(Clone, Copy, Debug, PartialEq, Eq, Structural)]
pub struct TimeSpan {
    pub secs: u64,
    pub nanos: u32,
}

impl TimeSpan {
    /// The length in nanoseconds.
    pub open spec fn total_nanos(self) -> nat {
        (self.secs * 1_000_000_000 + self.nanos) as nat
    }

    /// A span of whole seconds.
    pub fn from_secs(secs: u64) -> (span: TimeSpan)
        ensures
            span == (TimeSpan { secs, nanos: 0 }),
            span.total_nanos() == secs * 1_000_000_000,
    {
        TimeSpan { secs, nanos: 0 }
    }

    /// Whether this span is at least as long as `other`.
    pub fn at_least(&self, other: &TimeSpan) -> (b: bool)
        ensures
            b == (self.total_nanos() >= other.total_nanos()),
    {
        let mine: u128 = self.secs as u128 * 1_000_000_000u128 + self.nanos as u128;
        let theirs: u128 = other.secs as u128 * 1_000_000_000u128 + other.nanos as u128;
        mine >= theirs
    }
}

/// The outcome of one run of one target.
#[derive(Clone, Debug, PartialEq, Eq, Hash)]
pub enum ExecutionResult {
    Success,
    Crash(String),
    Timeout,
}

/// An outcome as a mathematical value: its kind and, for a crash, the
/// characters of the description.
pub enum Outcome {
    Success,
    Crash(Seq<char>),
    Timeout,
}

impl View for ExecutionResult {
    type V = Outcome;

    open spec fn view(&self) -> Outcome {
        match self {
            ExecutionResult::Success => Outcome::Success,
            ExecutionResult::Crash(description) => Outcome::Crash(description@),
            ExecutionResult::Timeout => Outcome::Timeout,
        }
    }
}

impl ExecutionResult {
    /// Whether two outcomes are the same: the same kind and, for crashes,
    /// the same description, character for character.
    pub fn matches_result(&self, other: &ExecutionResult) -> (b: bool)
        ensures
            b == (self@ == other@),
    {
        match self {
            ExecutionResult::Success => match other {
                ExecutionResult::Success => true,
                _ => false,
            },
            ExecutionResult::Timeout => match other {
                ExecutionResult::Timeout => true,
                _ => false,
            },
            ExecutionResult::Crash(a) => match other {
                ExecutionResult::Crash(b) => *a == *b,
                _ => false,
            },
        }
    }

    /// Whether this outcome is a crash.
    pub fn is_crash(&self) -> (b: bool)
        ensures
            b == (*self is Crash),
    {
        match self {
            ExecutionResult::Crash(_) => true,
            _ => false,
        }
    }

    /// A copy of this outcome.
    pub fn duplicate(&self) -> (r: ExecutionResult)
        ensures
            r == *self,
            r@ == self@,
    {
        match self {
            ExecutionResult::Success => ExecutionResult::Success,
            ExecutionResult::Timeout => ExecutionResult::Timeout,
            ExecutionResult::Crash(d) => ExecutionResult::Crash(d.clone()),
        }
    }
}

} // verus!
