//! Error taxonomy of the battle core and of the prediction market.
//!
//! Precondition violations and integrity violations abort with no state
//! change; resource exhaustion (`NoEntropyAvailable`, `SpecialOnCooldown`)
//! is retryable once the external condition is remedied.
use vstd::prelude::*;

verus! {

/// Failures of the battle core. Every operation that can fail returns one of
/// these and leaves its inputs unchanged.
#[derive(Clone, Copy, Debug, PartialEq, Eq, Structural)]
pub enum GameError {
    UnauthorizedRefill,
    SeedReplay,
    EntropyPoolFull,
    NoEntropyAvailable,
    InvalidIndex,
    InvalidRange,
    MathOverflow,
    InvalidNftAta,
    NotNftOwner,
    OfferNotActive,
    CharacterConstraint,
    Unauthorized,
    InvalidRequestState,
    InvalidBattleState,
    BattleAlreadyFinished,
    NotYourTurn,
    SpecialOnCooldown,
    InvalidTimestamp,
    BattleNotFinished,
    AutoApproveDisabled,
    SPLNotWhitelisted,
    TimeoutNotReached,
}

/// Failures of the prediction market built over finished battles.
#[derive(Clone, Copy, Debug, PartialEq, Eq, Structural)]
pub enum PredictionError {
    StakeTooSmall,
    BattleClosed,
    InvalidPool,
    PoolAlreadySettled,
    PoolNotSettled,
    AlreadyClaimed,
    InvalidArgs,
    BattleNotFinished,
    InvalidBattleAccount,
    NotResolved,
    NotWinner,
    AlreadyResolved,
    Unauthorized,
    Unimplemented,
}

} // verus!
