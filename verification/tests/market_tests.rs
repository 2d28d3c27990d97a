use battlechain::errors::PredictionError;
use battlechain::market::{
    claim_parlay, claim_single, deserialize_battle_snapshot, initialize_parlay_pool,
    place_parlay_bet, place_single_bet, resolve_parlay_ticket, settle_single_pool,
    withdraw_restake, BattleSnapshot, ClaimOutcome, GamePool, BATTLE_STATE_ACTIVE_BYTE,
    BATTLE_STATE_FINISHED_BYTE,
};

const BETTOR: u64 = 21;
const BATTLE_KEY: u64 = 700;
const POOL_ID: u64 = 900;

fn empty_game_pool() -> GamePool {
    GamePool {
        pool_id: 0,
        token_mint: None,
        total_staked: 0,
        snapshot_liquidity: 0,
        initialized: false,
        is_settled: false,
        winning_outcome: None,
    }
}

fn snapshot(state: u8) -> BattleSnapshot {
    BattleSnapshot {
        battle_id: 1,
        state,
        winner_present: 0,
        winner: vec![0; 32],
        start_ts: 0,
    }
}

#[test]
fn parlay_pool_starts_empty() {
    let p = initialize_parlay_pool(1, Some(77), 500, 200, 10, 500);
    assert_eq!(p.liquidity_balance, 0);
    assert_eq!(p.protocol_reserve, 0);
    assert_eq!(p.liquidity_floor, 500);
    assert_eq!(p.min_stake, 10);
    assert_eq!(p.max_multiplier_x100, 500);
}

#[test]
fn single_bets_validate_stake_and_battle_state() {
    let parlay = initialize_parlay_pool(1, None, 0, 200, 10, 500);
    let mut game = empty_game_pool();
    let open = snapshot(BATTLE_STATE_ACTIVE_BYTE);
    let r = place_single_bet(&parlay, &mut game, BATTLE_KEY, &open, BETTOR, 1, 5);
    assert_eq!(r.err(), Some(PredictionError::StakeTooSmall));
    let done = snapshot(BATTLE_STATE_FINISHED_BYTE);
    let r = place_single_bet(&parlay, &mut game, BATTLE_KEY, &done, BETTOR, 1, 100);
    assert_eq!(r.err(), Some(PredictionError::BattleClosed));
    assert!(!game.initialized);

    let bet = place_single_bet(&parlay, &mut game, BATTLE_KEY, &open, BETTOR, 1, 100).unwrap();
    assert!(game.initialized);
    assert_eq!(game.pool_id, BATTLE_KEY);
    assert_eq!(game.total_staked, 100);
    assert_eq!(bet.stake, 100);
    assert_eq!(bet.chosen_outcome, 1);
    assert!(!bet.claimed);

    let r = place_single_bet(&parlay, &mut game, 999, &open, BETTOR, 1, 100);
    assert_eq!(r.err(), Some(PredictionError::InvalidPool));
    place_single_bet(&parlay, &mut game, BATTLE_KEY, &open, 22, 2, 50).unwrap();
    assert_eq!(game.total_staked, 150);
}

#[test]
fn settling_requires_a_finished_battle_and_happens_once() {
    let parlay = initialize_parlay_pool(1, None, 0, 200, 10, 500);
    let mut game = empty_game_pool();
    let open = snapshot(BATTLE_STATE_ACTIVE_BYTE);
    place_single_bet(&parlay, &mut game, BATTLE_KEY, &open, BETTOR, 1, 100).unwrap();
    let r = settle_single_pool(&mut game, &open, 1);
    assert_eq!(r.err(), Some(PredictionError::BattleNotFinished));
    let done = snapshot(BATTLE_STATE_FINISHED_BYTE);
    settle_single_pool(&mut game, &done, 1).unwrap();
    assert!(game.is_settled);
    assert_eq!(game.winning_outcome, Some(1));
    assert_eq!(game.snapshot_liquidity, 100);
    assert_eq!(settle_single_pool(&mut game, &done, 1).err(), Some(PredictionError::PoolAlreadySettled));
    let r = place_single_bet(&parlay, &mut game, BATTLE_KEY, &open, BETTOR, 1, 100);
    assert_eq!(r.err(), Some(PredictionError::PoolAlreadySettled));
}

#[test]
fn losing_single_claims_pay_nothing_once() {
    let mut parlay = initialize_parlay_pool(1, None, 0, 200, 10, 500);
    let parlay0 = parlay;
    let mut game = empty_game_pool();
    let open = snapshot(BATTLE_STATE_ACTIVE_BYTE);
    let mut bet = place_single_bet(&parlay, &mut game, BATTLE_KEY, &open, BETTOR, 1, 100).unwrap();
    let r = claim_single(&mut parlay, POOL_ID, &game, &mut bet, false, 5);
    assert_eq!(r.err(), Some(PredictionError::PoolNotSettled));
    let done = snapshot(BATTLE_STATE_FINISHED_BYTE);
    settle_single_pool(&mut game, &done, 2).unwrap();
    let outcome = claim_single(&mut parlay, POOL_ID, &game, &mut bet, false, 5).unwrap();
    assert_eq!(outcome, ClaimOutcome::Lost);
    assert!(bet.claimed);
    assert_eq!(parlay, parlay0);
    let r = claim_single(&mut parlay, POOL_ID, &game, &mut bet, false, 5);
    assert_eq!(r.err(), Some(PredictionError::AlreadyClaimed));
}

#[test]
fn winning_single_claim_pays_double_less_fee() {
    let mut parlay = initialize_parlay_pool(1, None, 0, 200, 10, 500);
    let mut game = empty_game_pool();
    let open = snapshot(BATTLE_STATE_ACTIVE_BYTE);
    let mut bet = place_single_bet(&parlay, &mut game, BATTLE_KEY, &open, BETTOR, 1, 100).unwrap();
    let done = snapshot(BATTLE_STATE_FINISHED_BYTE);
    settle_single_pool(&mut game, &done, 1).unwrap();
    let outcome = claim_single(&mut parlay, POOL_ID, &game, &mut bet, false, 5).unwrap();
    // Twice the stake of 100, minus the two-percent fee of 4.
    assert_eq!(outcome, ClaimOutcome::Paid(196));
    assert_eq!(parlay.protocol_reserve, 4);
    assert!(bet.claimed);
}

#[test]
fn restaking_a_single_win_needs_a_token_pool() {
    let mut sol_parlay = initialize_parlay_pool(1, None, 0, 200, 10, 500);
    let mut game = empty_game_pool();
    let open = snapshot(BATTLE_STATE_ACTIVE_BYTE);
    let mut bet =
        place_single_bet(&sol_parlay, &mut game, BATTLE_KEY, &open, BETTOR, 1, 100).unwrap();
    let done = snapshot(BATTLE_STATE_FINISHED_BYTE);
    settle_single_pool(&mut game, &done, 1).unwrap();
    let r = claim_single(&mut sol_parlay, POOL_ID, &game, &mut bet, true, 5);
    assert_eq!(r.err(), Some(PredictionError::Unimplemented));
    assert!(!bet.claimed);

    let mut spl_parlay = initialize_parlay_pool(1, Some(77), 0, 200, 10, 500);
    let outcome = claim_single(&mut spl_parlay, POOL_ID, &game, &mut bet, true, 5).unwrap();
    match outcome {
        ClaimOutcome::Restaked(pos) => {
            assert_eq!(pos.owner, BETTOR);
            assert_eq!(pos.pool, POOL_ID);
            assert_eq!(pos.share, 196);
            assert!(!pos.closed);
        },
        other => panic!("expected a restake position, got {:?}", other),
    }
    assert_eq!(spl_parlay.liquidity_balance, 196);
    assert!(bet.claimed);
}

#[test]
fn parlay_multiplier_grows_per_leg_and_clamps() {
    let mut parlay = initialize_parlay_pool(1, None, 0, 200, 10, 500);
    let r = place_parlay_bet(&mut parlay, BETTOR, vec![1, 2], vec![1], 100, 5);
    assert_eq!(r.err(), Some(PredictionError::InvalidArgs));
    let t = place_parlay_bet(&mut parlay, BETTOR, vec![1, 2, 3], vec![1, 1, 2], 100, 5).unwrap();
    assert_eq!(t.multiplier_x100, 250);
    assert_eq!(parlay.liquidity_balance, 100);
    assert_eq!(t.stake, 100);
    assert!(!t.resolved && t.won.is_none() && !t.claimed);
    // Ten legs would give 600, which the pool clamps to its maximum of 500.
    let t2 = place_parlay_bet(
        &mut parlay,
        BETTOR,
        vec![1, 2, 3, 4, 5, 6, 7, 8, 9, 10],
        vec![1; 10],
        100,
        5,
    )
    .unwrap();
    assert_eq!(t2.multiplier_x100, 500);
}

#[test]
fn losing_parlay_books_the_fee_once() {
    let mut parlay = initialize_parlay_pool(1, None, 0, 200, 10, 500);
    let mut t = place_parlay_bet(&mut parlay, BETTOR, vec![1, 2], vec![1, 1], 100, 5).unwrap();
    resolve_parlay_ticket(&mut parlay, &mut t, false).unwrap();
    assert_eq!(t.won, Some(false));
    assert!(t.resolved);
    assert_eq!(parlay.protocol_reserve, 2);
    let r = resolve_parlay_ticket(&mut parlay, &mut t, false);
    assert_eq!(r.err(), Some(PredictionError::AlreadyResolved));
}

#[test]
fn winning_parlay_payout_is_clamped_by_the_liquidity_floor() {
    let mut parlay = initialize_parlay_pool(1, None, 900, 200, 10, 500);
    parlay.liquidity_balance = 900;
    let mut t = place_parlay_bet(&mut parlay, BETTOR, vec![1, 2], vec![1, 1], 100, 5).unwrap();
    assert_eq!(parlay.liquidity_balance, 1000);
    assert_eq!(t.multiplier_x100, 200);
    resolve_parlay_ticket(&mut parlay, &mut t, true).unwrap();
    // The raw payout of 200 would dip under the floor of 900, so only the
    // 100 above the floor is promised.
    assert_eq!(t.payout_snapshot, 100);
    assert_eq!(parlay.liquidity_balance, 900);
}

#[test]
fn claiming_a_parlay_pays_or_restakes_the_snapshot() {
    let mut parlay = initialize_parlay_pool(1, None, 0, 200, 10, 500);
    let mut t = place_parlay_bet(&mut parlay, BETTOR, vec![1, 2], vec![1, 1], 100, 5).unwrap();
    let r = claim_parlay(&mut parlay, POOL_ID, &mut t, false, 6);
    assert_eq!(r.err(), Some(PredictionError::NotResolved));
    resolve_parlay_ticket(&mut parlay, &mut t, true).unwrap();
    assert_eq!(t.payout_snapshot, 100);
    let outcome = claim_parlay(&mut parlay, POOL_ID, &mut t, false, 6).unwrap();
    assert_eq!(outcome, ClaimOutcome::Paid(98));
    assert_eq!(parlay.protocol_reserve, 2);
    assert!(t.claimed);
    let r = claim_parlay(&mut parlay, POOL_ID, &mut t, false, 6);
    assert_eq!(r.err(), Some(PredictionError::AlreadyClaimed));
}

#[test]
fn claiming_a_lost_parlay_is_refused() {
    let mut parlay = initialize_parlay_pool(1, None, 0, 200, 10, 500);
    let mut t = place_parlay_bet(&mut parlay, BETTOR, vec![1, 2], vec![1, 1], 100, 5).unwrap();
    resolve_parlay_ticket(&mut parlay, &mut t, false).unwrap();
    let r = claim_parlay(&mut parlay, POOL_ID, &mut t, false, 6);
    assert_eq!(r.err(), Some(PredictionError::NotWinner));
}

#[test]
fn withdrawing_a_restake_closes_it_and_leaves_the_pool() {
    let mut parlay = initialize_parlay_pool(1, Some(77), 0, 200, 10, 500);
    let mut game = empty_game_pool();
    let open = snapshot(BATTLE_STATE_ACTIVE_BYTE);
    let mut bet = place_single_bet(&parlay, &mut game, BATTLE_KEY, &open, BETTOR, 1, 100).unwrap();
    let done = snapshot(BATTLE_STATE_FINISHED_BYTE);
    settle_single_pool(&mut game, &done, 1).unwrap();
    let outcome = claim_single(&mut parlay, POOL_ID, &game, &mut bet, true, 5).unwrap();
    let mut pos = match outcome {
        ClaimOutcome::Restaked(pos) => pos,
        other => panic!("expected a restake position, got {:?}", other),
    };
    assert_eq!(parlay.liquidity_balance, 196);
    let r = withdraw_restake(&mut parlay, &mut pos, 999);
    assert_eq!(r.err(), Some(PredictionError::Unauthorized));
    // Share 196, exit fee 196 * 2% = 3 (rounded down), payout 193.
    let paid = withdraw_restake(&mut parlay, &mut pos, BETTOR).unwrap();
    assert_eq!(paid, 193);
    assert!(pos.closed);
    assert_eq!(parlay.protocol_reserve, 3);
    assert_eq!(parlay.liquidity_balance, 3);
}

#[test]
fn battle_snapshots_parse_their_exact_byte_layout() {
    let mut data: Vec<u8> = Vec::new();
    data.extend_from_slice(&[0xAA; 8]); // account tag
    data.extend_from_slice(&0x0102030405060708u64.to_le_bytes());
    data.push(BATTLE_STATE_FINISHED_BYTE);
    data.push(1);
    data.extend_from_slice(&[9u8; 32]);
    data.extend_from_slice(&(-5i64).to_le_bytes());
    let snap = deserialize_battle_snapshot(&data).unwrap();
    assert_eq!(snap.battle_id, 0x0102030405060708);
    assert_eq!(snap.state, BATTLE_STATE_FINISHED_BYTE);
    assert_eq!(snap.winner_present, 1);
    assert_eq!(snap.winner, vec![9u8; 32]);
    assert_eq!(snap.start_ts, -5);

    let short = vec![0u8; 57];
    assert_eq!(
        deserialize_battle_snapshot(&short).err(),
        Some(PredictionError::InvalidBattleAccount)
    );
}
