//! The prediction market over finished battles: a global parlay liquidity
//! pool, per-battle single-bet pools, parlay tickets, restake positions, and
//! the byte-level snapshot reader that validates a battle account before any
//! bet is accepted.
use vstd::prelude::*;

use vstd::bytes::spec_u64_from_le_bytes;
use vstd::bytes::u64_from_le_bytes;
use vstd::slice::slice_subrange;
use vstd::slice::slice_to_vec;

use crate::errors::PredictionError;

verus! {

/// Byte value of the waiting battle state in a serialized battle account.
pub const BATTLE_STATE_WAITING_BYTE: u8 = 0;

/// Byte value of the active battle state in a serialized battle account.
pub const BATTLE_STATE_ACTIVE_BYTE: u8 = 1;

/// Byte value of the finished battle state in a serialized battle account.
pub const BATTLE_STATE_FINISHED_BYTE: u8 = 2;

/// The global parlay pool: shared liquidity, a floor it never pays below,
/// the protocol's fee and reserve, and betting limits.
#[derive(Clone, Copy, PartialEq, Eq, Structural, Debug)]
pub struct ParlayPool {
    pub authority: u64,
    pub token_mint: Option<u64>,
    pub liquidity_balance: u64,
    pub liquidity_floor: u64,
    pub protocol_reserve: u64,
    pub protocol_fee_bps: u16,
    pub min_stake: u64,
    pub max_multiplier_x100: u64,
}

impl ParlayPool {
    /// Pool invariant: the fee never exceeds the whole (ten thousand basis
    /// points).
    pub open spec fn wf(self) -> bool {
        self.protocol_fee_bps <= 10_000
    }
}

/// A per-battle betting pool, created lazily by the first bet.
#[derive(Clone, Copy, PartialEq, Eq, Structural, Debug)]
pub struct GamePool {
    pub pool_id: u64,
    pub token_mint: Option<u64>,
    pub total_staked: u64,
    pub snapshot_liquidity: u64,
    pub initialized: bool,
    pub is_settled: bool,
    pub winning_outcome: Option<u8>,
}

/// One bettor's position in a per-battle pool.
#[derive(Clone, Copy, PartialEq, Eq, Structural, Debug)]
pub struct SingleBet {
    pub bettor: u64,
    pub pool: u64,
    pub chosen_outcome: u8,
    pub stake: u64,
    pub claimed: bool,
}

/// A multi-battle parlay position against the global pool.
pub struct ParlayTicket {
    pub owner: u64,
    pub games: Vec<u64>,
    pub chosen_outcomes: Vec<u8>,
    pub stake: u64,
    pub multiplier_x100: u64,
    pub resolved: bool,
    pub won: Option<bool>,
    pub payout_snapshot: u64,
    pub claimed: bool,
    pub created_at: i64,
}

/// A winner's payout converted into parlay-pool liquidity.
#[derive(Clone, Copy, PartialEq, Eq, Structural, Debug)]
pub struct RestakePosition {
    pub owner: u64,
    pub pool: u64,
    pub share: u64,
    pub created_at: i64,
    pub closed: bool,
}

/// What a successful claim hands back: nothing for a losing position, a
/// payout amount to transfer, or a freshly opened restake position.
#[derive(Clone, Copy, PartialEq, Eq, Structural, Debug)]
pub enum ClaimOutcome {
    Lost,
    Paid(u64),
    Restaked(RestakePosition),
}

/// Creates the global parlay pool.
pub fn initialize_parlay_pool(
    authority: u64,
    token_mint: Option<u64>,
    liquidity_floor: u64,
    protocol_fee_bps: u16,
    min_stake: u64,
    max_multiplier_x100: u64,
) -> (p: ParlayPool)
    requires
        protocol_fee_bps <= 10_000,
    ensures
        p.wf(),
        p == (ParlayPool {
            authority,
            token_mint,
            liquidity_balance: 0,
            liquidity_floor,
            protocol_reserve: 0,
            protocol_fee_bps,
            min_stake,
            max_multiplier_x100,
        }),
{
    ParlayPool {
        authority,
        token_mint,
        liquidity_balance: 0,
        liquidity_floor,
        protocol_reserve: 0,
        protocol_fee_bps,
        min_stake,
        max_multiplier_x100,
    }
}

/// Twice `x`, saturating at the 64-bit maximum.
pub open spec fn double_sat(x: int) -> int {
    if 2 * x > u64::MAX {
        u64::MAX as int
    } else {
        2 * x
    }
}

fn saturating_double(x: u64) -> (r: u64)
    ensures
        r as int == double_sat(x as int),
{
    if x > u64::MAX / 2 {
        u64::MAX
    } else {
        2 * x
    }
}

/// The protocol's cut of `amount` at `fee_bps` basis points.
pub open spec fn fee_of(amount: int, fee_bps: int) -> int {
    (amount * fee_bps) / 10_000
}

/// Computes the protocol fee on an amount; never more than the amount while
/// the fee stays within ten thousand basis points.
fn take_fee(amount: u64, fee_bps: u16) -> (r: u64)
    requires
        fee_bps <= 10_000,
    ensures
        r == fee_of(amount as int, fee_bps as int),
        r <= amount,
{
    proof {
        assert((amount as int) * (fee_bps as int) <= 0xFFFF_FFFF_FFFF_FFFF * 10_000
            && (amount as int) * (fee_bps as int) / 10_000 <= amount as int) by (nonlinear_arith)
            requires
                amount <= 0xFFFF_FFFF_FFFF_FFFFu64,
                fee_bps <= 10_000,
        ;
    }
    ((amount as u128) * (fee_bps as u128) / 10_000) as u64
}

/// Places a bet on one battle's outcome: validates the stake floor and that
/// the battle is still open, lazily initializes the per-battle pool, and
/// books the stake. The escrow transfer itself is the caller's, after
/// success.
pub fn place_single_bet(
    parlay_pool: &ParlayPool,
    game_pool: &mut GamePool,
    battle_key: u64,
    snapshot: &BattleSnapshot,
    bettor: u64,
    chosen_outcome: u8,
    stake_amount: u64,
) -> (r: Result<SingleBet, PredictionError>)
    ensures
        r is Err ==> *final(game_pool) == *old(game_pool),
        ({
            let g0 = *old(game_pool);
            if stake_amount < parlay_pool.min_stake {
                r matches Err(e) && e == PredictionError::StakeTooSmall
            } else if snapshot.state == BATTLE_STATE_FINISHED_BYTE {
                r matches Err(e) && e == PredictionError::BattleClosed
            } else if g0.initialized && g0.pool_id != battle_key {
                r matches Err(e) && e == PredictionError::InvalidPool
            } else if g0.initialized && g0.is_settled {
                r matches Err(e) && e == PredictionError::PoolAlreadySettled
            } else {
                let base = if g0.initialized {
                    g0
                } else {
                    GamePool {
                        pool_id: battle_key,
                        token_mint: parlay_pool.token_mint,
                        total_staked: 0,
                        snapshot_liquidity: g0.snapshot_liquidity,
                        initialized: true,
                        is_settled: false,
                        winning_outcome: None,
                    }
                };
                &&& *final(game_pool) == (GamePool {
                    total_staked: base.total_staked.saturating_add(stake_amount),
                    ..base
                })
                &&& r matches Ok(b) && b == (SingleBet {
                    bettor,
                    pool: battle_key,
                    chosen_outcome,
                    stake: stake_amount,
                    claimed: false,
                })
            }
        }),
{
    if stake_amount < parlay_pool.min_stake {
        return Err(PredictionError::StakeTooSmall);
    }
    if snapshot.state == BATTLE_STATE_FINISHED_BYTE {
        return Err(PredictionError::BattleClosed);
    }
    if !game_pool.initialized {
        game_pool.pool_id = battle_key;
        game_pool.token_mint = parlay_pool.token_mint;
        game_pool.total_staked = 0;
        game_pool.is_settled = false;
        game_pool.winning_outcome = None;
        game_pool.initialized = true;
    } else {
        if game_pool.pool_id != battle_key {
            return Err(PredictionError::InvalidPool);
        }
        if game_pool.is_settled {
            return Err(PredictionError::PoolAlreadySettled);
        }
    }
    game_pool.total_staked = game_pool.total_staked.saturating_add(stake_amount);
    Ok(SingleBet { bettor, pool: battle_key, chosen_outcome, stake: stake_amount, claimed: false })
}

/// Locks a per-battle pool on the finished battle's outcome and snapshots
/// its liquidity for payouts.
pub fn settle_single_pool(
    game_pool: &mut GamePool,
    snapshot: &BattleSnapshot,
    winning_outcome: u8,
) -> (r: Result<(), PredictionError>)
    ensures
        r is Err ==> *final(game_pool) == *old(game_pool),
        ({
            let g0 = *old(game_pool);
            if !(g0.initialized && !g0.is_settled) {
                r matches Err(e) && e == PredictionError::PoolAlreadySettled
            } else if snapshot.state != BATTLE_STATE_FINISHED_BYTE {
                r matches Err(e) && e == PredictionError::BattleNotFinished
            } else {
                r is Ok && *final(game_pool) == (GamePool {
                    winning_outcome: Some(winning_outcome),
                    is_settled: true,
                    snapshot_liquidity: g0.total_staked,
                    ..g0
                })
            }
        }),
{
    if !(game_pool.initialized && !game_pool.is_settled) {
        return Err(PredictionError::PoolAlreadySettled);
    }
    if snapshot.state != BATTLE_STATE_FINISHED_BYTE {
        return Err(PredictionError::BattleNotFinished);
    }
    game_pool.winning_outcome = Some(winning_outcome);
    game_pool.is_settled = true;
    game_pool.snapshot_liquidity = game_pool.total_staked;
    Ok(())
}

/// Claims a single bet after settlement: losers are merely marked claimed;
/// a winner receives twice the stake less the protocol fee, either paid out
/// or restaked into the parlay pool (token pools only).
pub fn claim_single(
    parlay_pool: &mut ParlayPool,
    parlay_pool_id: u64,
    game_pool: &GamePool,
    bet: &mut SingleBet,
    restake_into_parlay: bool,
    now: i64,
) -> (r: Result<ClaimOutcome, PredictionError>)
    requires
        old(parlay_pool).wf(),
    ensures
        final(parlay_pool).wf(),
        r is Err ==> *final(bet) == *old(bet) && *final(parlay_pool) == *old(parlay_pool),
        ({
            let b0 = *old(bet);
            let p0 = *old(parlay_pool);
            let is_winner = game_pool.winning_outcome == Some(b0.chosen_outcome);
            let naive = double_sat(b0.stake as int) as u64;
            let fee = fee_of(naive as int, p0.protocol_fee_bps as int);
            let after_fee = naive - fee;
            if !game_pool.is_settled {
                r matches Err(e) && e == PredictionError::PoolNotSettled
            } else if b0.claimed {
                r matches Err(e) && e == PredictionError::AlreadyClaimed
            } else if !is_winner {
                &&& r matches Ok(o) && o == ClaimOutcome::Lost
                &&& *final(bet) == (SingleBet { claimed: true, ..b0 })
                &&& *final(parlay_pool) == p0
            } else if restake_into_parlay && p0.token_mint is None {
                r matches Err(e) && e == PredictionError::Unimplemented
            } else if restake_into_parlay {
                &&& r matches Ok(o) && o == ClaimOutcome::Restaked(
                    RestakePosition {
                        owner: b0.bettor,
                        pool: parlay_pool_id,
                        share: after_fee as u64,
                        created_at: now,
                        closed: false,
                    },
                )
                &&& *final(bet) == (SingleBet { claimed: true, ..b0 })
                &&& *final(parlay_pool) == (ParlayPool {
                    liquidity_balance: p0.liquidity_balance.saturating_add(after_fee as u64),
                    ..p0
                })
            } else {
                &&& r matches Ok(o) && o == ClaimOutcome::Paid(after_fee as u64)
                &&& *final(bet) == (SingleBet { claimed: true, ..b0 })
                &&& *final(parlay_pool) == (ParlayPool {
                    protocol_reserve: p0.protocol_reserve.saturating_add(fee as u64),
                    ..p0
                })
            }
        }),
{
    if !game_pool.is_settled {
        return Err(PredictionError::PoolNotSettled);
    }
    if bet.claimed {
        return Err(PredictionError::AlreadyClaimed);
    }
    let is_winner = match game_pool.winning_outcome {
        Some(w) => w == bet.chosen_outcome,
        None => false,
    };
    if !is_winner {
        bet.claimed = true;
        return Ok(ClaimOutcome::Lost);
    }
    let naive_payout = saturating_double(bet.stake);
    let fee = take_fee(naive_payout, parlay_pool.protocol_fee_bps);
    let payout_after_fee = naive_payout - fee;
    if restake_into_parlay {
        if parlay_pool.token_mint.is_none() {
            return Err(PredictionError::Unimplemented);
        }
        parlay_pool.liquidity_balance = parlay_pool.liquidity_balance.saturating_add(
            payout_after_fee,
        );
        bet.claimed = true;
        Ok(
            ClaimOutcome::Restaked(
                RestakePosition {
                    owner: bet.bettor,
                    pool: parlay_pool_id,
                    share: payout_after_fee,
                    created_at: now,
                    closed: false,
                },
            ),
        )
    } else {
        parlay_pool.protocol_reserve = parlay_pool.protocol_reserve.saturating_add(fee);
        bet.claimed = true;
        Ok(ClaimOutcome::Paid(payout_after_fee))
    }
}

/// The advertised multiplier of a parlay with `legs` legs: one plus half per
/// leg, in hundredths, clamped to the pool's maximum.
pub open spec fn parlay_multiplier(legs: int, max_multiplier_x100: int) -> int {
    let raw = if 100 + 50 * legs > u64::MAX {
        u64::MAX as int
    } else {
        100 + 50 * legs
    };
    if raw > max_multiplier_x100 {
        max_multiplier_x100
    } else {
        raw
    }
}

/// Opens a parlay ticket over a list of battles, books its stake into the
/// pool's liquidity and fixes its multiplier.
pub fn place_parlay_bet(
    parlay_pool: &mut ParlayPool,
    bettor: u64,
    games: Vec<u64>,
    chosen_outcomes: Vec<u8>,
    stake: u64,
    now: i64,
) -> (r: Result<ParlayTicket, PredictionError>)
    requires
        old(parlay_pool).wf(),
    ensures
        final(parlay_pool).wf(),
        r is Err ==> *final(parlay_pool) == *old(parlay_pool),
        ({
            let p0 = *old(parlay_pool);
            if games@.len() != chosen_outcomes@.len() {
                r matches Err(e) && e == PredictionError::InvalidArgs
            } else if stake < p0.min_stake {
                r matches Err(e) && e == PredictionError::StakeTooSmall
            } else {
                &&& *final(parlay_pool) == (ParlayPool {
                    liquidity_balance: p0.liquidity_balance.saturating_add(stake),
                    ..p0
                })
                &&& r matches Ok(t) && {
                    &&& t.owner == bettor
                    &&& t.games@ == games@
                    &&& t.chosen_outcomes@ == chosen_outcomes@
                    &&& t.stake == stake
                    &&& t.multiplier_x100 as int == parlay_multiplier(
                        games@.len() as int,
                        p0.max_multiplier_x100 as int,
                    )
                    &&& !t.resolved
                    &&& t.won is None
                    &&& t.payout_snapshot == 0
                    &&& !t.claimed
                    &&& t.created_at == now
                }
            }
        }),
{
    if games.len() != chosen_outcomes.len() {
        return Err(PredictionError::InvalidArgs);
    }
    if stake < parlay_pool.min_stake {
        return Err(PredictionError::StakeTooSmall);
    }
    let legs = games.len();
    let mut multiplier_x100: u64 = 100;
    let mut i: usize = 0;
    while i < legs
        invariant
            i <= legs,
            multiplier_x100 as int == (if 100 + 50 * (i as int) > u64::MAX {
                u64::MAX as int
            } else {
                100 + 50 * (i as int)
            }),
        decreases legs - i,
    {
        multiplier_x100 = multiplier_x100.saturating_add(50);
        i += 1;
    }
    if multiplier_x100 > parlay_pool.max_multiplier_x100 {
        multiplier_x100 = parlay_pool.max_multiplier_x100;
    }
    parlay_pool.liquidity_balance = parlay_pool.liquidity_balance.saturating_add(stake);
    Ok(
        ParlayTicket {
            owner: bettor,
            games,
            chosen_outcomes,
            stake,
            multiplier_x100,
            resolved: false,
            won: None,
            payout_snapshot: 0,
            claimed: false,
            created_at: now,
        },
    )
}

/// Marks a parlay ticket won or lost. A loss books the protocol fee on the
/// stake; a win snapshots the payout, clamped so the pool never dips under
/// its liquidity floor, and reserves it out of the liquidity.
pub fn resolve_parlay_ticket(
    parlay_pool: &mut ParlayPool,
    ticket: &mut ParlayTicket,
    won: bool,
) -> (r: Result<(), PredictionError>)
    requires
        old(parlay_pool).wf(),
    ensures
        final(parlay_pool).wf(),
        r is Err ==> *final(parlay_pool) == *old(parlay_pool) && final(ticket).resolved == old(ticket).resolved && final(ticket).won == old(ticket).won && final(ticket).payout_snapshot == old(ticket).payout_snapshot,
        ({
            let p0 = *old(parlay_pool);
            let t0 = old(ticket);
            if t0.resolved {
                r matches Err(e) && e == PredictionError::AlreadyResolved
            } else if !won {
                let fee = fee_of(t0.stake as int, p0.protocol_fee_bps as int);
                &&& r is Ok
                &&& final(ticket).resolved && final(ticket).won == Some(false)
                &&& final(ticket).payout_snapshot == t0.payout_snapshot
                &&& *final(parlay_pool) == (ParlayPool {
                    protocol_reserve: p0.protocol_reserve.saturating_add(fee as u64),
                    ..p0
                })
            } else {
                let raw = (t0.stake as int) * (t0.multiplier_x100 as int) / 100;
                let available = if p0.liquidity_balance >= p0.liquidity_floor {
                    p0.liquidity_balance - p0.liquidity_floor
                } else {
                    0
                };
                let payout = if raw > available {
                    available
                } else {
                    raw
                };
                &&& r is Ok
                &&& final(ticket).resolved && final(ticket).won == Some(true)
                &&& final(ticket).payout_snapshot == payout
                &&& *final(parlay_pool) == (ParlayPool {
                    liquidity_balance: (p0.liquidity_balance - payout) as u64,
                    ..p0
                })
            }
        }),
        final(ticket).owner == old(ticket).owner && final(ticket).games@ == old(ticket).games@
            && final(ticket).chosen_outcomes@ == old(ticket).chosen_outcomes@
            && final(ticket).stake == old(ticket).stake
            && final(ticket).multiplier_x100 == old(ticket).multiplier_x100
            && final(ticket).claimed == old(ticket).claimed
            && final(ticket).created_at == old(ticket).created_at,
{
    if ticket.resolved {
        return Err(PredictionError::AlreadyResolved);
    }
    ticket.resolved = true;
    if !won {
        ticket.won = Some(false);
        let fee = take_fee(ticket.stake, parlay_pool.protocol_fee_bps);
        parlay_pool.protocol_reserve = parlay_pool.protocol_reserve.saturating_add(fee);
        return Ok(());
    }
    ticket.won = Some(true);
    proof {
        assert((ticket.stake as int) * (ticket.multiplier_x100 as int) < 0x1_0000_0000_0000_0000
            * 0x1_0000_0000_0000_0000) by (nonlinear_arith)
            requires
                ticket.stake < 0x1_0000_0000_0000_0000,
                ticket.multiplier_x100 < 0x1_0000_0000_0000_0000,
        ;
    }
    let mut payout: u128 = (ticket.stake as u128) * (ticket.multiplier_x100 as u128) / 100;
    let available = parlay_pool.liquidity_balance.saturating_sub(parlay_pool.liquidity_floor);
    if payout > available as u128 {
        payout = available as u128;
    }
    ticket.payout_snapshot = payout as u64;
    parlay_pool.liquidity_balance = parlay_pool.liquidity_balance - ticket.payout_snapshot;
    Ok(())
}

/// Claims a won parlay ticket: the snapshot payout less the protocol fee is
/// either paid out or converted into a restake position.
pub fn claim_parlay(
    parlay_pool: &mut ParlayPool,
    parlay_pool_id: u64,
    ticket: &mut ParlayTicket,
    restake: bool,
    now: i64,
) -> (r: Result<ClaimOutcome, PredictionError>)
    requires
        old(parlay_pool).wf(),
    ensures
        final(parlay_pool).wf(),
        r is Err ==> *final(parlay_pool) == *old(parlay_pool) && final(ticket).claimed == old(ticket).claimed,
        r is Ok ==> final(ticket).claimed,
        final(ticket).resolved == old(ticket).resolved && final(ticket).won == old(ticket).won
            && final(ticket).payout_snapshot == old(ticket).payout_snapshot
            && final(ticket).owner == old(ticket).owner
            && final(ticket).games@ == old(ticket).games@
            && final(ticket).chosen_outcomes@ == old(ticket).chosen_outcomes@
            && final(ticket).stake == old(ticket).stake
            && final(ticket).multiplier_x100 == old(ticket).multiplier_x100
            && final(ticket).created_at == old(ticket).created_at,
        ({
            let p0 = *old(parlay_pool);
            let t0 = old(ticket);
            let fee = fee_of(t0.payout_snapshot as int, p0.protocol_fee_bps as int);
            let after_fee = t0.payout_snapshot - fee;
            if !t0.resolved {
                r matches Err(e) && e == PredictionError::NotResolved
            } else if t0.won != Some(true) {
                r matches Err(e) && e == PredictionError::NotWinner
            } else if t0.claimed {
                r matches Err(e) && e == PredictionError::AlreadyClaimed
            } else if restake {
                &&& r matches Ok(o) && o == ClaimOutcome::Restaked(
                    RestakePosition {
                        owner: t0.owner,
                        pool: parlay_pool_id,
                        share: after_fee as u64,
                        created_at: now,
                        closed: false,
                    },
                )
                &&& *final(parlay_pool) == (ParlayPool {
                    liquidity_balance: p0.liquidity_balance.saturating_add(after_fee as u64),
                    protocol_reserve: p0.protocol_reserve.saturating_add(fee as u64),
                    ..p0
                })
            } else {
                &&& r matches Ok(o) && o == ClaimOutcome::Paid(after_fee as u64)
                &&& *final(parlay_pool) == (ParlayPool {
                    protocol_reserve: p0.protocol_reserve.saturating_add(fee as u64),
                    ..p0
                })
            }
        }),
{
    if !ticket.resolved {
        return Err(PredictionError::NotResolved);
    }
    let is_winner = match ticket.won {
        Some(w) => w,
        None => false,
    };
    if !is_winner {
        return Err(PredictionError::NotWinner);
    }
    if ticket.claimed {
        return Err(PredictionError::AlreadyClaimed);
    }
    let payout = ticket.payout_snapshot;
    let fee = take_fee(payout, parlay_pool.protocol_fee_bps);
    let payout_after_fee = payout - fee;
    parlay_pool.protocol_reserve = parlay_pool.protocol_reserve.saturating_add(fee);
    if restake {
        parlay_pool.liquidity_balance = parlay_pool.liquidity_balance.saturating_add(
            payout_after_fee,
        );
        ticket.claimed = true;
        Ok(
            ClaimOutcome::Restaked(
                RestakePosition {
                    owner: ticket.owner,
                    pool: parlay_pool_id,
                    share: payout_after_fee,
                    created_at: now,
                    closed: false,
                },
            ),
        )
    } else {
        ticket.claimed = true;
        Ok(ClaimOutcome::Paid(payout_after_fee))
    }
}

/// Unstakes a restake position at its recorded share, less the exit fee; the
/// share leaves the pool's liquidity.
pub fn withdraw_restake(
    parlay_pool: &mut ParlayPool,
    restake_pos: &mut RestakePosition,
    owner: u64,
) -> (r: Result<u64, PredictionError>)
    requires
        old(parlay_pool).wf(),
    ensures
        final(parlay_pool).wf(),
        r is Err ==> *final(parlay_pool) == *old(parlay_pool) && *final(restake_pos) == *old(restake_pos),
        ({
            let p0 = *old(parlay_pool);
            let s0 = *old(restake_pos);
            let fee = fee_of(s0.share as int, p0.protocol_fee_bps as int);
            let after_fee = s0.share - fee;
            if owner != s0.owner {
                r matches Err(e) && e == PredictionError::Unauthorized
            } else {
                &&& r matches Ok(v) && v as int == after_fee
                &&& *final(restake_pos) == (RestakePosition { closed: true, ..s0 })
                &&& *final(parlay_pool) == (ParlayPool {
                    protocol_reserve: p0.protocol_reserve.saturating_add(fee as u64),
                    liquidity_balance: p0.liquidity_balance.saturating_sub(after_fee as u64),
                    ..p0
                })
            }
        }),
{
    if owner != restake_pos.owner {
        return Err(PredictionError::Unauthorized);
    }
    let payout = restake_pos.share;
    let fee = take_fee(payout, parlay_pool.protocol_fee_bps);
    let payout_after_fee = payout - fee;
    parlay_pool.protocol_reserve = parlay_pool.protocol_reserve.saturating_add(fee);
    parlay_pool.liquidity_balance = parlay_pool.liquidity_balance.saturating_sub(payout_after_fee);
    restake_pos.closed = true;
    Ok(payout_after_fee)
}

/// The fields of a battle account a bet validator needs, read from the
/// account's raw bytes.
pub struct BattleSnapshot {
    pub battle_id: u64,
    pub state: u8,
    pub winner_present: u8,
    pub winner: Vec<u8>,
    pub start_ts: i64,
}

/// The signed 64-bit value whose two's-complement bits are `x`.
pub open spec fn i64_of_bits(x: u64) -> int {
    if x < 0x8000_0000_0000_0000 {
        x as int
    } else {
        x - 0x1_0000_0000_0000_0000
    }
}

fn i64_from_bits(x: u64) -> (r: i64)
    ensures
        r as int == i64_of_bits(x),
{
    if x < 0x8000_0000_0000_0000 {
        x as i64
    } else {
        ((x - 0x8000_0000_0000_0000) as i64) + i64::MIN
    }
}

/// Reads a battle snapshot out of a serialized battle account: an 8-byte
/// account tag, then the battle id, the state byte, the winner flag, the
/// 32-byte winner identity, and the start timestamp, all little-endian.
pub fn deserialize_battle_snapshot(data: &[u8]) -> (r: Result<BattleSnapshot, PredictionError>)
    ensures
        ({
            if data@.len() < 58 {
                r matches Err(e) && e == PredictionError::InvalidBattleAccount
            } else {
                r matches Ok(s) && {
                    &&& s.battle_id == spec_u64_from_le_bytes(data@.subrange(8, 16))
                    &&& s.state == data@[16]
                    &&& s.winner_present == data@[17]
                    &&& s.winner@ == data@.subrange(18, 50)
                    &&& s.start_ts as int == i64_of_bits(
                        spec_u64_from_le_bytes(data@.subrange(50, 58)),
                    )
                }
            }
        }),
{
    if data.len() < 58 {
        return Err(PredictionError::InvalidBattleAccount);
    }
    let battle_id = u64_from_le_bytes(slice_subrange(data, 8, 16));
    let state = *vstd::slice::slice_index_get(data, 16);
    let winner_present = *vstd::slice::slice_index_get(data, 17);
    let winner = slice_to_vec(slice_subrange(data, 18, 50));
    let ts_bits = u64_from_le_bytes(slice_subrange(data, 50, 58));
    let start_ts = i64_from_bits(ts_bits);
    Ok(BattleSnapshot { battle_id, state, winner_present, winner, start_ts })
}

} // verus!
