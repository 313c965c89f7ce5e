//! Trusted boundary around the ChaCha pseudo-random engine.
//!
//! Everything the generators draw comes through the wrappers below. The
//! engine itself is opaque to the verifier; its behaviour is abstracted by a
//! ghost state and by uninterpreted draw functions of that state, so that a
//! caller can prove that a whole generation run is a function of the seed
//! alone.

use vstd::prelude::*;

use rand::Rng;
use rand::RngCore;
use rand::SeedableRng;

verus! {

/// The pseudo-random engine every generation call seeds afresh: ChaCha with
/// 20 rounds, as rand_chacha provides it. The verifier treats values of this
/// type as opaque.
#[verifier::external_type_specification]
#[verifier::external_body]
pub struct ExChaCha20Rng(rand_chacha::ChaCha20Rng);

/// The abstract engine state reached by seeding ChaCha from a 64-bit seed.
pub uninterp spec fn seeded_state(seed: u64) -> int;

/// The unbounded 64-bit value drawn at a given engine state, paired with the
/// state the engine is left in.
pub uninterp spec fn u64_draw(state: int) -> (u64, int);

/// The bounded i32 value drawn at a given engine state over `[low, high)`,
/// paired with the state the engine is left in.
pub uninterp spec fn i32_range_draw(state: int, low: i32, high: i32) -> (i32, int);

/// The bounded usize value drawn at a given engine state over `[low, high)`,
/// paired with the state the engine is left in.
pub uninterp spec fn usize_range_draw(state: int, low: usize, high: usize) -> (usize, int);

/// A pseudo-random engine for one generation call.
pub struct Engine {
    rng: rand_chacha::ChaCha20Rng,
}

/// The abstract state of an engine: everything the next draw depends on.
pub uninterp spec fn engine_state(e: Engine) -> int;

/// Builds the engine for one generation call.
///
/// Relies on rand::SeedableRng::seed_from_u64 on rand_chacha::ChaCha20Rng:
/// the default seed_from_u64 expands the seed with a fixed congruential
/// step and hands the bytes to from_seed, so the engine built is a function
/// of the seed alone, on every platform.
#[verifier::external_body]
pub(crate) fn engine_from_seed(seed: u64) -> (e: Engine)
    ensures
        engine_state(e) == seeded_state(seed),
{
    Engine { rng: rand_chacha::ChaCha20Rng::seed_from_u64(seed) }
}

/// One unbounded 64-bit draw.
///
/// Relies on rand::RngCore::next_u64 on rand_chacha::ChaCha20Rng: the value
/// and the engine left behind are functions of the engine state alone.
#[verifier::external_body]
pub(crate) fn draw_u64(e: &mut Engine) -> (v: u64)
    ensures
        v == u64_draw(engine_state(*old(e))).0,
        engine_state(*final(e)) == u64_draw(engine_state(*old(e))).1,
{
    e.rng.next_u64()
}

/// One bounded i32 draw.
///
/// Relies on rand::Rng::gen_range on an i32 range: it panics only on an
/// empty range, returns a value uniform in `[low, high)` with the upper
/// bound excluded, and both the value and the engine left behind are
/// functions of the engine state and the bounds alone.
#[verifier::external_body]
pub(crate) fn draw_i32_in(e: &mut Engine, low: i32, high: i32) -> (v: i32)
    requires
        low < high,
    ensures
        v == i32_range_draw(engine_state(*old(e)), low, high).0,
        engine_state(*final(e)) == i32_range_draw(engine_state(*old(e)), low, high).1,
        low <= v < high,
{
    e.rng.gen_range(low..high)
}

/// One bounded usize draw.
///
/// Relies on rand::Rng::gen_range on a usize range, as draw_i32_in does.
#[verifier::external_body]
pub(crate) fn draw_usize_in(e: &mut Engine, low: usize, high: usize) -> (v: usize)
    requires
        low < high,
    ensures
        v == usize_range_draw(engine_state(*old(e)), low, high).0,
        engine_state(*final(e)) == usize_range_draw(engine_state(*old(e)), low, high).1,
        low <= v < high,
{
    e.rng.gen_range(low..high)
}

} // verus!
