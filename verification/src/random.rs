//! The random source of the engine.
//!
//! All randomness is drawn from `rand`'s `StdRng`. The generator is opaque to
//! the verifier, so the functions here promise only what holds of every
//! draw: the range the value lies in. Whatever a caller proves therefore
//! holds for every stream the generator could produce.

use rand::Rng;
use rand::rngs::StdRng;
use rand::SeedableRng;
use vstd::prelude::*;

verus! {

/// `rand::rngs::StdRng`, carried through verified code as an opaque value.
#[verifier::external_type_specification]
#[verifier::external_body]
pub struct ExStdRng(StdRng);

/// Calls `StdRng::seed_from_u64`: a generator whose stream is fixed by
/// `seed`. Nothing is claimed of the generator.
#[verifier::external_body]
pub(crate) fn seeded_rng(seed: u64) -> StdRng {
    StdRng::seed_from_u64(seed)
}

/// Calls `rand::thread_rng().gen::<u64>()`: a seed taken from the thread's
/// entropy source. Any value may come back.
#[verifier::external_body]
pub(crate) fn entropy_seed() -> u64 {
    rand::thread_rng().gen::<u64>()
}

/// Calls `Rng::gen_range(0..bound)` at `usize`. `rand` panics on an empty
/// range, hence the precondition; the value lies in the half-open range.
#[verifier::external_body]
pub(crate) fn draw_index(rng: &mut StdRng, bound: usize) -> (index: usize)
    requires
        0 < bound,
    ensures
        index < bound,
{
    rng.gen_range(0..bound)
}

/// Calls `Rng::gen_range(low..=high)` at `usize`. The range must not be
/// empty; the value lies in the closed range.
#[verifier::external_body]
pub(crate) fn draw_index_inclusive(rng: &mut StdRng, low: usize, high: usize) -> (index: usize)
    requires
        low <= high,
    ensures
        low <= index <= high,
{
    rng.gen_range(low..=high)
}

/// Calls `Rng::gen_range(low..high)` at `i32`. The range must not be empty;
/// the value lies in the half-open range.
#[verifier::external_body]
pub(crate) fn draw_small(rng: &mut StdRng, low: i32, high: i32) -> (value: i32)
    requires
        low < high,
    ensures
        low <= value < high,
{
    rng.gen_range(low..high)
}

/// Calls `Rng::gen_range(low..high)` at `u8`. The range must not be empty;
/// the value lies in the half-open range.
#[verifier::external_body]
pub(crate) fn draw_byte_between(rng: &mut StdRng, low: u8, high: u8) -> (value: u8)
    requires
        low < high,
    ensures
        low <= value < high,
{
    rng.gen_range(low..high)
}

/// Calls `Rng::gen_range(low..=high)` at `i64`. The range must not be empty;
/// the value lies in the closed range.
#[verifier::external_body]
pub(crate) fn draw_signed_inclusive(rng: &mut StdRng, low: i64, high: i64) -> (value: i64)
    requires
        low <= high,
    ensures
        low <= value <= high,
{
    rng.gen_range(low..=high)
}

/// Calls `Rng::gen::<u8>()`. Any byte may come back.
#[verifier::external_body]
pub(crate) fn draw_byte(rng: &mut StdRng) -> u8 {
    rng.gen::<u8>()
}

/// Calls `Rng::gen::<u64>()`. Any word may come back.
#[verifier::external_body]
pub(crate) fn draw_word(rng: &mut StdRng) -> u64 {
    rng.gen::<u64>()
}

/// Calls `Rng::gen::<bool>()`. Either value may come back.
#[verifier::external_body]
pub(crate) fn draw_flag(rng: &mut StdRng) -> bool {
    rng.gen::<bool>()
}

} // verus!
