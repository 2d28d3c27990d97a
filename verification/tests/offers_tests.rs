use battlechain::character::{create_character_from_nft, create_progression, CharacterClass};
use battlechain::errors::GameError;
use battlechain::offers::{
    cancel_offer, create_battle_offer, create_config, join_battle_offer, withdraw_request,
    Currency, JoinStatus,
};

const CREATOR: u64 = 10;
const CHALLENGER: u64 = 11;

#[test]
fn config_holds_what_it_was_given() {
    let cfg = create_config(1, 200, 300, vec![77, 88], 3);
    assert_eq!(cfg.admin, 1);
    assert_eq!(cfg.fee_bps, 200);
    assert_eq!(cfg.inactivity_timeout, 300);
    assert_eq!(cfg.spl_whitelist, vec![77, 88]);
    assert_eq!(cfg.trait_authority, 3);
}

#[test]
fn token_offers_must_use_whitelisted_mints() {
    let cfg = create_config(1, 200, 300, vec![77], 3);
    let rejected = create_battle_offer(
        CREATOR, 1, Currency::SPL(99), 1000, 1, 10, vec![], false, 50, &cfg, 40,
    );
    assert_eq!(rejected.err(), Some(GameError::SPLNotWhitelisted));
    let accepted = create_battle_offer(
        CREATOR, 1, Currency::SPL(77), 1000, 1, 10, vec![], false, 50, &cfg, 40,
    );
    assert!(accepted.is_ok());
}

#[test]
fn offers_cannot_start_in_the_past() {
    let cfg = create_config(1, 200, 300, vec![], 3);
    let r = create_battle_offer(
        CREATOR, 1, Currency::SOL, 1000, 1, 10, vec![], false, 39, &cfg, 40,
    );
    assert_eq!(r.err(), Some(GameError::InvalidTimestamp));
    let o = create_battle_offer(
        CREATOR, 1, Currency::SOL, 1000, 1, 10, vec![], true, 40, &cfg, 40,
    )
    .unwrap();
    assert!(o.is_active);
    assert_eq!(o.stake_amount, 1000);
    assert_eq!(o.inactivity_timeout, 0);
    assert_eq!(o.created_at, 40);
}

#[test]
fn joining_enforces_level_and_class_constraints() {
    let cfg = create_config(1, 200, 300, vec![], 3);
    let offer = create_battle_offer(
        CREATOR, 1, Currency::SOL, 1000, 2, 5, vec![CharacterClass::Mage], false, 50, &cfg, 40,
    )
    .unwrap();
    let warrior = create_character_from_nft(501, CharacterClass::Warrior, 0);
    let mut prog = create_progression(501);
    // Level 1 sits under the offer's minimum of 2.
    let r = join_battle_offer(&offer, 900, CHALLENGER, &warrior, &prog, 1000, 60);
    assert_eq!(r.err(), Some(GameError::CharacterConstraint));
    prog.level = 3;
    // The class list admits mages only.
    let r = join_battle_offer(&offer, 900, CHALLENGER, &warrior, &prog, 1000, 60);
    assert_eq!(r.err(), Some(GameError::CharacterConstraint));
    let mage = create_character_from_nft(502, CharacterClass::Mage, 0);
    let q = join_battle_offer(&offer, 900, CHALLENGER, &mage, &prog, 1000, 60).unwrap();
    assert_eq!(q.status, JoinStatus::Pending);
    assert_eq!(q.offer, 900);
    assert_eq!(q.challenger, CHALLENGER);
    assert_eq!(q.character, 502);
    assert_eq!(q.offered_stake, 1000);
}

#[test]
fn joining_an_inactive_offer_fails() {
    let cfg = create_config(1, 200, 300, vec![], 3);
    let mut offer = create_battle_offer(
        CREATOR, 1, Currency::SOL, 1000, 1, 10, vec![], false, 50, &cfg, 40,
    )
    .unwrap();
    offer.is_active = false;
    let warrior = create_character_from_nft(501, CharacterClass::Warrior, 0);
    let prog = create_progression(501);
    let r = join_battle_offer(&offer, 900, CHALLENGER, &warrior, &prog, 1000, 60);
    assert_eq!(r.err(), Some(GameError::OfferNotActive));
}

#[test]
fn withdrawing_a_request_needs_the_challenger_and_a_pending_state() {
    let cfg = create_config(1, 200, 300, vec![], 3);
    let offer = create_battle_offer(
        CREATOR, 1, Currency::SOL, 1000, 1, 10, vec![], false, 50, &cfg, 40,
    )
    .unwrap();
    let warrior = create_character_from_nft(501, CharacterClass::Warrior, 0);
    let prog = create_progression(501);
    let mut q = join_battle_offer(&offer, 900, CHALLENGER, &warrior, &prog, 1000, 60).unwrap();
    assert_eq!(withdraw_request(&mut q, 999).err(), Some(GameError::Unauthorized));
    assert_eq!(q.status, JoinStatus::Pending);
    assert_eq!(withdraw_request(&mut q, CHALLENGER), Ok(()));
    assert_eq!(q.status, JoinStatus::Withdrawn);
    assert_eq!(
        withdraw_request(&mut q, CHALLENGER).err(),
        Some(GameError::InvalidRequestState)
    );
}

#[test]
fn cancelling_an_offer_needs_its_creator_once() {
    let cfg = create_config(1, 200, 300, vec![], 3);
    let mut offer = create_battle_offer(
        CREATOR, 1, Currency::SOL, 1000, 1, 10, vec![], false, 50, &cfg, 40,
    )
    .unwrap();
    assert_eq!(cancel_offer(&mut offer, 999).err(), Some(GameError::Unauthorized));
    assert!(offer.is_active);
    assert_eq!(cancel_offer(&mut offer, CREATOR), Ok(()));
    assert!(!offer.is_active);
    assert_eq!(cancel_offer(&mut offer, CREATOR).err(), Some(GameError::OfferNotActive));
}
