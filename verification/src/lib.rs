//! Deterministic battle-simulation core: a pre-committed entropy pool with a
//! monotonic watermark, a turn-based battle state machine, a fixed-point
//! damage pipeline, character progression, and the settlement and
//! prediction-market accounting that read finished battles.
//!
//! All timestamps are plain `i64` seconds and all identities are plain `u64`
//! account ids handed in by the caller; the library itself performs no I/O.
use vstd::prelude::*;

pub mod errors;
pub mod entropy;
pub mod character;
pub mod damage;
pub mod battle;
pub mod market;
pub mod offers;

verus! {

/// Fixed-point scale: one unit is one millionth.
pub const FP_SCALE: u128 = 1_000_000u128;

/// Cap on the accumulated damage multiplier, in fixed point (ten times).
pub const MAX_TOTAL_MULTIPLIER_FP: u128 = 10_000_000u128;

/// Largest combo stack a character can accumulate.
pub const MAX_COMBO_STACK: u8 = 5;

/// Length in bytes of a committed seed.
pub const SEED_LEN: usize = 32;

/// Number of seed-batch slots in the entropy ring.
pub const MAX_BATCHES: usize = 8;

/// Entropy entries a single turn consumes.
pub const MIN_ENTROPY_PER_TURN: u64 = 4;

} // verus!
