//! A coverage-aware fuzzing engine: seeded input generation, byte-level
//! mutation, coverage accounting, outcome statistics and the decision logic
//! of the local and the distributed fuzzing loops.
//!
//! Everything in this crate is verified. Randomness comes from `rand` and
//! crash digests from `sha2`, both behind small trusted wrappers in
//! [`random`] and [`crash_analysis`]. Waiting on targets, sockets and files is
//! left to the caller, who drives the state machines in [`fuzz_engine`] and
//! [`distributed`].

pub mod analysis;
pub mod config;
pub mod coverage;
pub mod crash_analysis;
pub mod distributed;
pub mod errors;
pub mod fuzz_engine;
pub mod input;
pub mod logger;
pub mod mutator;
pub mod mutator_options;
pub mod random;
pub mod reproducer;
pub mod tally;
pub mod text;
pub mod utils;

pub use crate::config::FuzzerConfig;
pub use crate::errors::FuzzerError;
pub use crate::fuzz_engine::Fuzzer;
