//! Matchmaking around battles: global configuration, stake-backed offers,
//! join requests, and their withdraw/cancel transitions. The escrow moves
//! themselves happen outside the core; this module owns the rules.
use vstd::prelude::*;

use crate::character::Character;
use crate::character::CharacterClass;
use crate::character::Progression;
use crate::errors::GameError;

verus! {

/// The staking currency of an offer: native units, or a whitelisted token
/// mint.
#[derive(Clone, Copy, PartialEq, Eq, Structural, Debug)]
pub enum Currency {
    SOL,
    SPL(u64),
}

/// Lifecycle of a join request.
#[derive(Clone, Copy, PartialEq, Eq, Structural, Debug)]
pub enum JoinStatus {
    Pending,
    Approved,
    Rejected,
    Withdrawn,
}

/// Global configuration: fee, default inactivity timeout, accepted token
/// mints and the authority allowed to write trait bundles.
pub struct Config {
    pub admin: u64,
    pub fee_bps: u16,
    pub inactivity_timeout: i64,
    pub spl_whitelist: Vec<u64>,
    pub trait_authority: u64,
}

/// Creates the global configuration record.
pub fn create_config(
    admin: u64,
    fee_bps: u16,
    inactivity_timeout: i64,
    spl_whitelist: Vec<u64>,
    trait_authority: u64,
) -> (c: Config)
    ensures
        c.admin == admin,
        c.fee_bps == fee_bps,
        c.inactivity_timeout == inactivity_timeout,
        c.spl_whitelist@ == spl_whitelist@,
        c.trait_authority == trait_authority,
{
    Config { admin, fee_bps, inactivity_timeout, spl_whitelist, trait_authority }
}

/// A standing challenge with its stake and the constraints a challenger must
/// meet.
pub struct Offer {
    pub creator: u64,
    pub offer_nonce: u64,
    pub currency: Currency,
    pub stake_amount: u64,
    pub min_level: u16,
    pub max_level: u16,
    pub allowed_classes: Vec<CharacterClass>,
    pub auto_approve: bool,
    pub start_ts: i64,
    pub inactivity_timeout: i64,
    pub created_at: i64,
    pub is_active: bool,
}

/// A challenger's pending entry against one offer.
#[derive(Clone, Copy, PartialEq, Eq, Structural, Debug)]
pub struct Request {
    pub offer: u64,
    pub challenger: u64,
    pub character: u64,
    pub offered_stake: u64,
    pub created_at: i64,
    pub status: JoinStatus,
}

fn contains_u64(v: &Vec<u64>, x: u64) -> (b: bool)
    ensures
        b == v@.contains(x),
{
    let mut i: usize = 0;
    while i < v.len()
        invariant
            i <= v.len(),
            forall|k: int| 0 <= k < i ==> v@[k] != x,
        decreases v.len() - i,
    {
        if v[i] == x {
            return true;
        }
        i += 1;
    }
    false
}

fn contains_class(v: &Vec<CharacterClass>, x: CharacterClass) -> (b: bool)
    ensures
        b == v@.contains(x),
{
    let mut i: usize = 0;
    while i < v.len()
        invariant
            i <= v.len(),
            forall|k: int| 0 <= k < i ==> v@[k] != x,
        decreases v.len() - i,
    {
        if v[i] == x {
            return true;
        }
        i += 1;
    }
    false
}

/// Opens an offer. A token-staked offer must name a whitelisted mint, and
/// the scheduled start cannot lie in the past.
pub fn create_battle_offer(
    creator: u64,
    offer_nonce: u64,
    currency: Currency,
    stake_amount: u64,
    min_level: u16,
    max_level: u16,
    allowed_classes: Vec<CharacterClass>,
    auto_approve: bool,
    start_ts: i64,
    config: &Config,
    now: i64,
) -> (r: Result<Offer, GameError>)
    ensures
        ({
            let bad_mint = currency matches Currency::SPL(mint) && !config.spl_whitelist@.contains(
                mint,
            );
            if bad_mint {
                r matches Err(e) && e == GameError::SPLNotWhitelisted
            } else if start_ts < now {
                r matches Err(e) && e == GameError::InvalidTimestamp
            } else {
                r matches Ok(o) && {
                    &&& o.creator == creator
                    &&& o.offer_nonce == offer_nonce
                    &&& o.currency == currency
                    &&& o.stake_amount == stake_amount
                    &&& o.min_level == min_level
                    &&& o.max_level == max_level
                    &&& o.allowed_classes@ == allowed_classes@
                    &&& o.auto_approve == auto_approve
                    &&& o.start_ts == start_ts
                    &&& o.inactivity_timeout == 0
                    &&& o.created_at == now
                    &&& o.is_active
                }
            }
        }),
{
    match currency {
        Currency::SPL(mint) => {
            if !contains_u64(&config.spl_whitelist, mint) {
                return Err(GameError::SPLNotWhitelisted);
            }
        },
        Currency::SOL => {},
    }
    if start_ts < now {
        return Err(GameError::InvalidTimestamp);
    }
    Ok(
        Offer {
            creator,
            offer_nonce,
            currency,
            stake_amount,
            min_level,
            max_level,
            allowed_classes,
            auto_approve,
            start_ts,
            inactivity_timeout: 0,
            created_at: now,
            is_active: true,
        },
    )
}

/// Enters a challenger against an active offer, holding the challenger's
/// character to the offer's level and class constraints.
pub fn join_battle_offer(
    offer: &Offer,
    offer_id: u64,
    challenger: u64,
    character: &Character,
    progression: &Progression,
    offered_stake: u64,
    now: i64,
) -> (r: Result<Request, GameError>)
    ensures
        ({
            if !offer.is_active {
                r matches Err(e) && e == GameError::OfferNotActive
            } else if !(offer.min_level <= progression.level && progression.level
                <= offer.max_level) {
                r matches Err(e) && e == GameError::CharacterConstraint
            } else if offer.allowed_classes@.len() > 0 && !offer.allowed_classes@.contains(
                character.base_class,
            ) {
                r matches Err(e) && e == GameError::CharacterConstraint
            } else {
                r matches Ok(q) && q == (Request {
                    offer: offer_id,
                    challenger,
                    character: character.nft_mint,
                    offered_stake,
                    created_at: now,
                    status: JoinStatus::Pending,
                })
            }
        }),
{
    if !offer.is_active {
        return Err(GameError::OfferNotActive);
    }
    if !(progression.level >= offer.min_level && progression.level <= offer.max_level) {
        return Err(GameError::CharacterConstraint);
    }
    if offer.allowed_classes.len() > 0 && !contains_class(&offer.allowed_classes, character.base_class) {
        return Err(GameError::CharacterConstraint);
    }
    Ok(
        Request {
            offer: offer_id,
            challenger,
            character: character.nft_mint,
            offered_stake,
            created_at: now,
            status: JoinStatus::Pending,
        },
    )
}

/// Withdraws a still-pending request; the refund of its stake is the
/// caller's to perform once this succeeds.
pub fn withdraw_request(request: &mut Request, challenger: u64) -> (r: Result<(), GameError>)
    ensures
        r is Err ==> *final(request) == *old(request),
        ({
            if old(request).status != JoinStatus::Pending {
                r matches Err(e) && e == GameError::InvalidRequestState
            } else if challenger != old(request).challenger {
                r matches Err(e) && e == GameError::Unauthorized
            } else {
                r is Ok && *final(request) == (Request {
                    status: JoinStatus::Withdrawn,
                    ..*old(request)
                })
            }
        }),
{
    if request.status != JoinStatus::Pending {
        return Err(GameError::InvalidRequestState);
    }
    if challenger != request.challenger {
        return Err(GameError::Unauthorized);
    }
    request.status = JoinStatus::Withdrawn;
    Ok(())
}

/// Closes an active offer; the refund of its stake is the caller's to
/// perform once this succeeds.
pub fn cancel_offer(offer: &mut Offer, creator: u64) -> (r: Result<(), GameError>)
    ensures
        ({
            if creator != old(offer).creator {
                (r matches Err(e) && e == GameError::Unauthorized) && unchanged_offer(
                    old(offer),
                    final(offer),
                )
            } else if !old(offer).is_active {
                (r matches Err(e) && e == GameError::OfferNotActive) && unchanged_offer(
                    old(offer),
                    final(offer),
                )
            } else {
                r is Ok && !final(offer).is_active && unchanged_offer_but_active(
                    old(offer),
                    final(offer),
                )
            }
        }),
{
    if creator != offer.creator {
        return Err(GameError::Unauthorized);
    }
    if !offer.is_active {
        return Err(GameError::OfferNotActive);
    }
    offer.is_active = false;
    Ok(())
}

/// Field-wise equality of offers.
pub open spec fn unchanged_offer(a: &Offer, b: &Offer) -> bool {
    unchanged_offer_but_active(a, b) && a.is_active == b.is_active
}

/// Field-wise equality of offers, the activity flag excepted.
pub open spec fn unchanged_offer_but_active(a: &Offer, b: &Offer) -> bool {
    &&& a.creator == b.creator
    &&& a.offer_nonce == b.offer_nonce
    &&& a.currency == b.currency
    &&& a.stake_amount == b.stake_amount
    &&& a.min_level == b.min_level
    &&& a.max_level == b.max_level
    &&& a.allowed_classes@ == b.allowed_classes@
    &&& a.auto_approve == b.auto_approve
    &&& a.start_ts == b.start_ts
    &&& a.inactivity_timeout == b.inactivity_timeout
    &&& a.created_at == b.created_at
}

} // verus!
