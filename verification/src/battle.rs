//! The battle state machine: creation with an entropy-drawn first mover,
//! atomic turn execution through the damage pipeline, timeout forfeiture,
//! and the settlement split read by the payout layer.
use vstd::prelude::*;

use crate::character::Character;
use crate::character::Progression;
use crate::character::class_special_cooldown;
use crate::character::special_cooldown_of;
use crate::character::spec_level_ups;
use crate::character::level_up_if_needed;
use crate::damage::DamageOutcome;
use crate::damage::StanceType;
use crate::damage::TurnInputs;
use crate::damage::resolve_damage;
use crate::damage::spec_resolve_damage;
use crate::entropy::EntropyPool;
use crate::entropy::TAG_BASE;
use crate::entropy::TAG_CRIT;
use crate::entropy::TAG_DODGE;
use crate::entropy::TAG_FIRST_MOVER;
use crate::entropy::TAG_WILD;
use crate::entropy::draw_step;
use crate::entropy::draw_val;
use crate::entropy::next_offset;
use crate::errors::GameError;
use crate::market::BATTLE_STATE_ACTIVE_BYTE;
use crate::market::BATTLE_STATE_FINISHED_BYTE;
use crate::market::BATTLE_STATE_WAITING_BYTE;
use crate::market::BattleSnapshot;
use crate::offers::JoinStatus;
use crate::offers::Offer;
use crate::offers::Request;
use crate::offers::unchanged_offer;
use crate::offers::unchanged_offer_but_active;

verus! {

/// Lifecycle of a battle; transitions run one way only.
#[derive(Clone, Copy, PartialEq, Eq, Structural, Debug)]
pub enum BattleState {
    Waiting,
    Active,
    Finished,
}

/// The full state of one battle between two participants.
#[derive(Clone, Copy, Debug)]
pub struct Battle {
    pub battle_id: u64,
    pub player1: u64,
    pub player2: u64,
    pub start_ts: i64,
    pub current_turn: u8,
    pub turn_number: u64,
    pub player1_health: u64,
    pub player2_health: u64,
    pub state: BattleState,
    pub player1_stance: StanceType,
    pub player2_stance: StanceType,
    pub created_at: i64,
    pub inactivity_timeout: i64,
    pub last_action_ts: i64,
    pub winner: Option<u64>,
    pub player1_dot_damage: u64,
    pub player2_dot_damage: u64,
    pub player1_dot_turns: u8,
    pub player2_dot_turns: u8,
    pub player1_reflection: u16,
    pub player2_reflection: u16,
    pub player1_miss_count: u16,
    pub player2_miss_count: u16,
    pub last_entropy_index: u64,
}

/// Everything one resolved turn reports to indexers: the four draws, the
/// resolved attack, the recoil damage taken by the attacker, and the
/// terminal verdict if the turn ended the battle.
#[derive(Clone, Copy, Debug)]
pub struct TurnReport {
    pub base_draw: u64,
    pub crit_roll: u64,
    pub dodge_roll: u64,
    pub wildcard: u64,
    pub outcome: DamageOutcome,
    pub reflected: u64,
    pub counter_damage: u64,
    pub self_damage: u64,
    pub finished: bool,
    pub winner: Option<u64>,
}

/// Byte encoding of a battle state, as serialized battle accounts and the
/// read-only snapshot carry it.
pub open spec fn battle_state_byte(s: BattleState) -> u8 {
    match s {
        BattleState::Waiting => BATTLE_STATE_WAITING_BYTE,
        BattleState::Active => BATTLE_STATE_ACTIVE_BYTE,
        BattleState::Finished => BATTLE_STATE_FINISHED_BYTE,
    }
}

impl Battle {
    /// The explicit read-only view of this battle for outside readers such
    /// as the prediction market: battle id, state byte, winner flag, the
    /// winner's identity little-endian in the first eight of the thirty-two
    /// winner bytes, and the scheduled start. This is the stable interface
    /// such readers get in place of reinterpreting the raw byte layout of
    /// stored state.
    pub fn snapshot(&self) -> (s: BattleSnapshot)
        ensures
            s.battle_id == self.battle_id,
            s.state == battle_state_byte(self.state),
            s.winner_present == (if self.winner is Some {
                1u8
            } else {
                0u8
            }),
            s.winner@.len() == 32,
            self.winner matches Some(w) ==> vstd::bytes::spec_u64_from_le_bytes(
                s.winner@.subrange(0, 8),
            ) == w,
            self.winner is None ==> (forall|i: int| 0 <= i < 32 ==> #[trigger] s.winner@[i] == 0),
            s.start_ts == self.start_ts,
    {
        let state = match self.state {
            BattleState::Waiting => BATTLE_STATE_WAITING_BYTE,
            BattleState::Active => BATTLE_STATE_ACTIVE_BYTE,
            BattleState::Finished => BATTLE_STATE_FINISHED_BYTE,
        };
        let (winner_present, mut winner): (u8, Vec<u8>) = match self.winner {
            Some(w) => {
                let bytes = vstd::bytes::u64_to_le_bytes(w);
                proof {
                    vstd::bytes::lemma_auto_spec_u64_to_from_le_bytes();
                }
                (1u8, bytes)
            },
            None => {
                let mut zeros: Vec<u8> = Vec::new();
                let mut i: usize = 0;
                while i < 8
                    invariant
                        i <= 8,
                        zeros.len() == i,
                        forall|k: int| 0 <= k < i ==> #[trigger] zeros@[k] == 0,
                    decreases 8 - i,
                {
                    zeros.push(0u8);
                    i += 1;
                }
                (0u8, zeros)
            },
        };
        let ghost head8 = winner@;
        proof {
            assert(winner@.subrange(0, 8) =~= head8);
        }
        let mut i: usize = 8;
        while i < 32
            invariant
                8 <= i <= 32,
                winner.len() == i,
                winner@.subrange(0, 8) == head8,
                forall|k: int| 8 <= k < i ==> #[trigger] winner@[k] == 0,
            decreases 32 - i,
        {
            winner.push(0u8);
            proof {
                assert(winner@.subrange(0, 8) =~= head8);
            }
            i += 1;
        }
        proof {
            assert forall|k: int| 0 <= k < 8 implies #[trigger] winner@[k] == head8[k] by {
                assert(winner@[k] == winner@.subrange(0, 8)[k]);
            };
        }
        BattleSnapshot {
            battle_id: self.battle_id,
            state,
            winner_present,
            winner,
            start_ts: self.start_ts,
        }
    }
}

/// `a - b` clamped into the `i64` range.
pub open spec fn sat_sub_i64_spec(a: int, b: int) -> int {
    if a - b > i64::MAX {
        i64::MAX as int
    } else if a - b < i64::MIN {
        i64::MIN as int
    } else {
        a - b
    }
}

/// Saturating `i64` subtraction.
pub fn sat_sub_i64(a: i64, b: i64) -> (r: i64)
    ensures
        r as int == sat_sub_i64_spec(a as int, b as int),
{
    let wide: i128 = a as i128 - b as i128;
    if wide > i64::MAX as i128 {
        i64::MAX
    } else if wide < i64::MIN as i128 {
        i64::MIN
    } else {
        wide as i64
    }
}

/// The two's-complement bits of a timestamp, as the unsigned word the battle
/// id mixes in.
pub open spec fn u64_of_i64(x: i64) -> int {
    if x >= 0 {
        x as int
    } else {
        x + 0x1_0000_0000_0000_0000
    }
}

fn u64_from_i64(x: i64) -> (r: u64)
    ensures
        r as int == u64_of_i64(x),
{
    if x >= 0 {
        x as u64
    } else {
        let shifted = (x + i64::MAX) + 1;
        (shifted as u64) + 0x8000_0000_0000_0000u64
    }
}

/// Wrapping 64-bit addition.
pub open spec fn wrap_add_u64(a: int, b: int) -> int {
    (a + b) % 0x1_0000_0000_0000_0000
}

fn wrapping_add_u64(a: u64, b: u64) -> (r: u64)
    ensures
        r as int == wrap_add_u64(a as int, b as int),
{
    if a <= u64::MAX - b {
        a + b
    } else {
        proof {
            assert((a + b) % 0x1_0000_0000_0000_0000 == a + b - 0x1_0000_0000_0000_0000);
        }
        (a - (u64::MAX - b)) - 1
    }
}

/// The turn number as the 32-bit word bound into each draw.
pub open spec fn turn32_of(t: u64) -> u32 {
    (t % 0x1_0000_0000) as u32
}

fn turn32(t: u64) -> (r: u32)
    ensures
        r == turn32_of(t),
{
    (t % 0x1_0000_0000) as u32
}

/// Approves a pending challenger against an active offer: deactivates the
/// offer, approves the request, and opens the battle with both sides at
/// 100 health and a first mover chosen by one entropy draw bound to the
/// creator. The stake moves themselves are the caller's, after success.
pub fn approve_challenger(
    offer: &mut Offer,
    request: &mut Request,
    pool: &mut EntropyPool,
    creator: u64,
    config_inactivity_timeout: i64,
    now: i64,
) -> (r: Result<Battle, GameError>)
    requires
        old(pool).wf(),
    ensures
        final(pool).wf(),
        r is Err ==> final(pool)@ == old(pool)@ && *final(request) == *old(request)
            && unchanged_offer(old(offer), final(offer)),
        ({
            let m = old(pool)@;
            if !old(offer).is_active {
                r matches Err(e) && e == GameError::OfferNotActive
            } else if old(request).status != JoinStatus::Pending {
                r matches Err(e) && e == GameError::InvalidRequestState
            } else if creator != old(offer).creator {
                r matches Err(e) && e == GameError::Unauthorized
            } else if old(pool).total_available < 1 {
                r matches Err(e) && e == GameError::NoEntropyAvailable
            } else if next_offset(m) <= 0 {
                r matches Err(e) && e == GameError::SeedReplay
            } else {
                let choice = draw_val(m, creator, TAG_FIRST_MOVER, 0, 0, 1);
                &&& final(pool)@ == draw_step(m)
                &&& unchanged_offer_but_active(old(offer), final(offer))
                &&& !final(offer).is_active
                &&& *final(request) == (Request { status: JoinStatus::Approved, ..*old(request) })
                &&& r matches Ok(b) && {
                    &&& b.battle_id as int == wrap_add_u64(
                        old(offer).offer_nonce as int,
                        u64_of_i64(now),
                    )
                    &&& b.player1 == old(offer).creator
                    &&& b.player2 == old(request).challenger
                    &&& b.start_ts == old(offer).start_ts
                    &&& b.current_turn == (if choice == 0 {
                        1u8
                    } else {
                        2u8
                    })
                    &&& b.turn_number == 0
                    &&& b.player1_health == 100
                    &&& b.player2_health == 100
                    &&& b.state == BattleState::Active
                    &&& b.player1_stance == StanceType::Balanced
                    &&& b.player2_stance == StanceType::Balanced
                    &&& b.created_at == now
                    &&& b.inactivity_timeout == (if old(offer).inactivity_timeout > 0 {
                        old(offer).inactivity_timeout
                    } else {
                        config_inactivity_timeout
                    })
                    &&& b.last_action_ts == now
                    &&& b.winner is None
                    &&& b.player1_dot_damage == 0 && b.player2_dot_damage == 0
                    &&& b.player1_dot_turns == 0 && b.player2_dot_turns == 0
                    &&& b.player1_reflection == 0 && b.player2_reflection == 0
                    &&& b.player1_miss_count == 0 && b.player2_miss_count == 0
                    &&& b.last_entropy_index as int == next_offset(m)
                }
            }
        }),
{
    if !offer.is_active {
        return Err(GameError::OfferNotActive);
    }
    if request.status != JoinStatus::Pending {
        return Err(GameError::InvalidRequestState);
    }
    if creator != offer.creator {
        return Err(GameError::Unauthorized);
    }
    if pool.total_available < 1 {
        return Err(GameError::NoEntropyAvailable);
    }
    let mut scratch = pool.duplicate();
    let (choice, used_index) = match scratch.consume_mixed_u64_return_index(
        creator,
        TAG_FIRST_MOVER,
        0,
        0,
        1,
    ) {
        Ok(t) => t,
        Err(_) => {
            proof {
                assert(false);
            }
            return Err(GameError::NoEntropyAvailable);
        },
    };
    if used_index == 0 {
        return Err(GameError::SeedReplay);
    }
    let battle = Battle {
        battle_id: wrapping_add_u64(offer.offer_nonce, u64_from_i64(now)),
        player1: offer.creator,
        player2: request.challenger,
        start_ts: offer.start_ts,
        current_turn: if choice == 0 {
            1
        } else {
            2
        },
        turn_number: 0,
        player1_health: 100,
        player2_health: 100,
        state: BattleState::Active,
        player1_stance: StanceType::Balanced,
        player2_stance: StanceType::Balanced,
        created_at: now,
        inactivity_timeout: if offer.inactivity_timeout > 0 {
            offer.inactivity_timeout
        } else {
            config_inactivity_timeout
        },
        last_action_ts: now,
        winner: None,
        player1_dot_damage: 0,
        player2_dot_damage: 0,
        player1_dot_turns: 0,
        player2_dot_turns: 0,
        player1_reflection: 0,
        player2_reflection: 0,
        player1_miss_count: 0,
        player2_miss_count: 0,
        last_entropy_index: used_index,
    };
    request.status = JoinStatus::Approved;
    offer.is_active = false;
    *pool = scratch;
    Ok(battle)
}

/// Finishes an unattended battle: once strictly more than the inactivity
/// timeout has passed since the last action, anyone may award the win to
/// the side that was not due to act.
pub fn forfeit_by_timeout(battle: &mut Battle, now: i64) -> (r: Result<u64, GameError>)
    ensures
        r is Err ==> *final(battle) == *old(battle),
        ({
            let b = *old(battle);
            if b.state != BattleState::Active {
                r matches Err(e) && e == GameError::InvalidBattleState
            } else if sat_sub_i64_spec(now as int, b.last_action_ts as int)
                <= b.inactivity_timeout {
                r matches Err(e) && e == GameError::TimeoutNotReached
            } else {
                let w = if b.current_turn == 1 {
                    b.player2
                } else {
                    b.player1
                };
                &&& r matches Ok(v) && v == w
                &&& *final(battle) == (Battle {
                    state: BattleState::Finished,
                    winner: Some(w),
                    ..b
                })
            }
        }),
{
    if battle.state != BattleState::Active {
        return Err(GameError::InvalidBattleState);
    }
    if sat_sub_i64(now, battle.last_action_ts) <= battle.inactivity_timeout {
        return Err(GameError::TimeoutNotReached);
    }
    let winner = if battle.current_turn == 1 {
        battle.player2
    } else {
        battle.player1
    };
    battle.state = BattleState::Finished;
    battle.winner = Some(winner);
    Ok(winner)
}

/// `a - b` saturating at zero, over the integers.
pub open spec fn sub0(a: int, b: int) -> int {
    if a - b < 0 {
        0
    } else {
        a - b
    }
}

/// `a + b` clamped to `cap`, over the integers.
pub open spec fn add_cap(a: int, b: int, cap: int) -> int {
    if a + b > cap {
        cap
    } else {
        a + b
    }
}

/// Law: health application saturates, so health never goes negative, and
/// lethal damage — any amount at least the remaining health — drives the
/// health to exactly zero, the battle's terminal condition.
pub proof fn lemma_lethal_damage_zeroes_health(health: u64, damage: u64)
    ensures
        sub0(health as int, damage as int) >= 0,
        damage >= health ==> sub0(health as int, damage as int) == 0,
        damage < health ==> sub0(health as int, damage as int) == health - damage,
{
}

/// Law: a used special ability re-arms the cooldown to its class-specific
/// fixed value; the end-of-turn tick then brings the stored counter to one
/// below it, so the observable post-turn cooldown plus one is always the
/// class constant.
pub proof fn lemma_special_rearms_to_class_value(ac: Character, out: DamageOutcome)
    ensures
        attacker_after_turn(ac, out, true).special_cooldown + 1 == class_special_cooldown(
            ac.base_class,
        ),
{
}

/// The pipeline inputs one turn hands to `resolve_damage`, drawn from the
/// battle, the two characters, the attacker's progression and the three
/// decisive draws.
pub open spec fn turn_inputs_of(
    b: Battle,
    ac: Character,
    dc: Character,
    ap: Progression,
    is_p1: bool,
    chosen: StanceType,
    use_special: bool,
    vbase: u64,
    vcrit: u64,
    vdodge: u64,
) -> TurnInputs {
    TurnInputs {
        base: vbase,
        crit_roll: vcrit,
        dodge_roll: vdodge,
        level: ap.level,
        attacker_class: ac.base_class,
        crit_bps: ac.crit_bps,
        crit_multiplier_fp: ac.crit_multiplier_fp,
        last_damage: ac.last_damage,
        combo_count: ac.combo_count,
        dodge_bps: dc.dodge_bps,
        defense: dc.defense,
        att_stance: chosen,
        def_stance: if is_p1 {
            b.player2_stance
        } else {
            b.player1_stance
        },
        use_special,
    }
}

/// The attacker's record once the turn's bookkeeping lands on it: combo and
/// last base roll from the resolved attack, and the cooldown re-armed on a
/// special (then ticked down once) or merely ticked down.
pub open spec fn attacker_after_turn(ac: Character, out: DamageOutcome, use_special: bool) -> Character {
    Character {
        combo_count: out.combo_count,
        last_damage: out.last_damage,
        special_cooldown: if use_special {
            (class_special_cooldown(ac.base_class) - 1) as u8
        } else if ac.special_cooldown > 0 {
            (ac.special_cooldown - 1) as u8
        } else {
            0u8
        },
        ..ac
    }
}

/// Executes one battle turn atomically: authorization and liveness checks,
/// four bound draws each strictly above the battle's entropy watermark, the
/// damage pipeline, health application with reflection/counter/self-damage
/// recoil — each a percentage of the same landed value, never compounding —
/// cooldown tick, and either the terminal transition with experience awards
/// or the turn flip. Reflection granted by the defender's earlier special
/// recoils on the attacker; the grant accumulates on the caster's side and
/// persists until the battle ends. On any failure no argument changes.
#[verifier::rlimit(100)]
pub fn execute_turn(
    pool: &mut EntropyPool,
    battle: &mut Battle,
    attacker_char: &mut Character,
    defender_char: &mut Character,
    attacker_prog: &mut Progression,
    defender_prog: &mut Progression,
    signer: u64,
    chosen_stance: StanceType,
    use_special: bool,
    now: i64,
) -> (r: Result<TurnReport, GameError>)
    requires
        old(pool).wf(),
        old(attacker_char).wf(),
        old(defender_char).wf(),
        old(attacker_prog).wf(),
        old(defender_prog).wf(),
    ensures
        final(pool).wf(),
        final(attacker_char).wf(),
        final(defender_char).wf(),
        final(attacker_prog).wf(),
        final(defender_prog).wf(),
        r is Err ==> final(pool)@ == old(pool)@ && *final(battle) == *old(battle)
            && *final(attacker_char) == *old(attacker_char)
            && *final(defender_char) == *old(defender_char)
            && *final(attacker_prog) == *old(attacker_prog)
            && *final(defender_prog) == *old(defender_prog),
        r is Ok ==> final(battle).last_entropy_index > old(battle).last_entropy_index,
        ({
            let m0 = old(pool)@;
            let b0 = *old(battle);
            let ac0 = *old(attacker_char);
            let dc0 = *old(defender_char);
            let ap0 = *old(attacker_prog);
            let dp0 = *old(defender_prog);
            let is_p1 = signer == b0.player1;
            let t32 = turn32_of(b0.turn_number);
            if b0.state != BattleState::Active {
                r matches Err(e) && e == GameError::InvalidBattleState
            } else if signer != b0.player1 && signer != b0.player2 {
                r matches Err(e) && e == GameError::Unauthorized
            } else if (is_p1 && b0.current_turn != 1) || (!is_p1 && b0.current_turn != 2) {
                r matches Err(e) && e == GameError::NotYourTurn
            } else if old(pool).total_available < 4 {
                r matches Err(e) && e == GameError::NoEntropyAvailable
            } else {
                let m1 = draw_step(m0);
                let m2 = draw_step(m1);
                let m3 = draw_step(m2);
                let i1 = next_offset(m0);
                let i2 = next_offset(m1);
                let i3 = next_offset(m2);
                let i4 = next_offset(m3);
                if !(i1 > b0.last_entropy_index && i2 > i1 && i3 > i2 && i4 > i3) {
                    r matches Err(e) && e == GameError::SeedReplay
                } else if use_special && ac0.special_cooldown != 0 {
                    r matches Err(e) && e == GameError::SpecialOnCooldown
                } else {
                    let vbase = draw_val(
                        m0,
                        signer,
                        TAG_BASE,
                        t32,
                        ac0.base_damage_min as u64,
                        ac0.base_damage_max as u64,
                    );
                    let vcrit = draw_val(m1, signer, TAG_CRIT, t32, 0, 9999);
                    let vdodge = draw_val(m2, signer, TAG_DODGE, t32, 0, 9999);
                    let vwild = draw_val(m3, signer, TAG_WILD, t32, 0, 9999);
                    let inp = turn_inputs_of(
                        b0,
                        ac0,
                        dc0,
                        ap0,
                        is_p1,
                        chosen_stance,
                        use_special,
                        vbase,
                        vcrit,
                        vdodge,
                    );
                    let out = spec_resolve_damage(inp);
                    let fd = out.final_damage as int;
                    let refl0 = if is_p1 {
                        b0.player1_reflection
                    } else {
                        b0.player2_reflection
                    };
                    let att_refl = add_cap(refl0 as int, out.reflection_added as int, u16::MAX as int);
                    let def_refl = if is_p1 {
                        b0.player2_reflection
                    } else {
                        b0.player1_reflection
                    };
                    let reflected = if def_refl > 0 && fd > 0 {
                        (fd * def_refl) / 100
                    } else {
                        0
                    };
                    let counter = if out.counter_bps > 0 && fd > 0 {
                        (fd * out.counter_bps) / 10000
                    } else {
                        0
                    };
                    let selfd = if out.self_bps > 0 {
                        (fd * out.self_bps) / 10000
                    } else {
                        0
                    };
                    let att_h0 = if is_p1 {
                        b0.player1_health
                    } else {
                        b0.player2_health
                    };
                    let def_h0 = if is_p1 {
                        b0.player2_health
                    } else {
                        b0.player1_health
                    };
                    let def_h1 = sub0(def_h0 as int, fd);
                    let att_h1 = sub0(sub0(sub0(att_h0 as int, reflected), counter), selfd);
                    let p1h = if is_p1 {
                        att_h1
                    } else {
                        def_h1
                    };
                    let p2h = if is_p1 {
                        def_h1
                    } else {
                        att_h1
                    };
                    let finished = p1h == 0 || p2h == 0;
                    let ac_mid = attacker_after_turn(ac0, out, use_special);
                    let fb = *final(battle);
                    &&& r matches Ok(rep) && {
                        &&& rep.base_draw == vbase
                        &&& rep.crit_roll == vcrit
                        &&& rep.dodge_roll == vdodge
                        &&& rep.wildcard == vwild
                        &&& rep.outcome == out
                        &&& rep.reflected == reflected
                        &&& rep.counter_damage == counter
                        &&& rep.self_damage == selfd
                        &&& rep.finished == finished
                        &&& rep.winner == fb.winner
                    }
                    &&& final(pool)@ == draw_step(m3)
                    &&& fb.last_action_ts == now
                    &&& fb.last_entropy_index as int == i4
                    &&& fb.player1_stance == (if is_p1 {
                        chosen_stance
                    } else {
                        b0.player1_stance
                    })
                    &&& fb.player2_stance == (if is_p1 {
                        b0.player2_stance
                    } else {
                        chosen_stance
                    })
                    &&& fb.player1_health == p1h && fb.player2_health == p2h
                    &&& (if is_p1 {
                        fb.player2_dot_damage as int == add_cap(
                            b0.player2_dot_damage as int,
                            out.dot_damage_added as int,
                            u64::MAX as int,
                        ) && fb.player2_dot_turns as int == add_cap(
                            b0.player2_dot_turns as int,
                            out.dot_turns_added as int,
                            u8::MAX as int,
                        ) && fb.player1_reflection as int == att_refl
                            && fb.player1_dot_damage == b0.player1_dot_damage
                            && fb.player1_dot_turns == b0.player1_dot_turns
                            && fb.player2_reflection == b0.player2_reflection
                            && fb.player2_miss_count as int == (if out.dodged {
                            add_cap(b0.player2_miss_count as int, 1, u16::MAX as int)
                        } else {
                            b0.player2_miss_count as int
                        }) && fb.player1_miss_count == b0.player1_miss_count
                    } else {
                        fb.player1_dot_damage as int == add_cap(
                            b0.player1_dot_damage as int,
                            out.dot_damage_added as int,
                            u64::MAX as int,
                        ) && fb.player1_dot_turns as int == add_cap(
                            b0.player1_dot_turns as int,
                            out.dot_turns_added as int,
                            u8::MAX as int,
                        ) && fb.player2_reflection as int == att_refl
                            && fb.player2_dot_damage == b0.player2_dot_damage
                            && fb.player2_dot_turns == b0.player2_dot_turns
                            && fb.player1_reflection == b0.player1_reflection
                            && fb.player1_miss_count as int == (if out.dodged {
                            add_cap(b0.player1_miss_count as int, 1, u16::MAX as int)
                        } else {
                            b0.player1_miss_count as int
                        }) && fb.player2_miss_count == b0.player2_miss_count
                    })
                    &&& fb.battle_id == b0.battle_id && fb.player1 == b0.player1 && fb.player2
                        == b0.player2 && fb.start_ts == b0.start_ts && fb.created_at
                        == b0.created_at && fb.inactivity_timeout == b0.inactivity_timeout
                    &&& fb.state == (if finished {
                        BattleState::Finished
                    } else {
                        BattleState::Active
                    })
                    &&& (if finished {
                        fb.current_turn == b0.current_turn && fb.turn_number == b0.turn_number
                            && fb.winner == (if p1h > p2h {
                            Some(b0.player1)
                        } else if p2h > p1h {
                            Some(b0.player2)
                        } else {
                            None::<u64>
                        }) && (if p1h != p2h {
                            let att_won = if is_p1 {
                                p1h > p2h
                            } else {
                                p2h > p1h
                            };
                            if att_won {
                                let lp = spec_level_ups(
                                    Progression {
                                        xp: add_cap(ap0.xp as int, 100, u64::MAX as int) as u64,
                                        ..ap0
                                    },
                                    ac_mid,
                                );
                                *final(attacker_prog) == lp.0 && *final(attacker_char) == lp.1
                                    && *final(defender_prog) == dp0 && *final(defender_char) == dc0
                            } else {
                                let lp = spec_level_ups(
                                    Progression {
                                        xp: add_cap(dp0.xp as int, 100, u64::MAX as int) as u64,
                                        ..dp0
                                    },
                                    dc0,
                                );
                                *final(defender_prog) == lp.0 && *final(defender_char) == lp.1
                                    && *final(attacker_prog) == ap0 && *final(attacker_char)
                                    == ac_mid
                            }
                        } else {
                            let lpa = spec_level_ups(
                                Progression {
                                    xp: add_cap(ap0.xp as int, 25, u64::MAX as int) as u64,
                                    ..ap0
                                },
                                ac_mid,
                            );
                            let lpd = spec_level_ups(
                                Progression {
                                    xp: add_cap(dp0.xp as int, 25, u64::MAX as int) as u64,
                                    ..dp0
                                },
                                dc0,
                            );
                            *final(attacker_prog) == lpa.0 && *final(attacker_char) == lpa.1
                                && *final(defender_prog) == lpd.0 && *final(defender_char) == lpd.1
                        })
                    } else {
                        fb.current_turn == (if b0.current_turn == 1 {
                            2u8
                        } else {
                            1u8
                        }) && fb.turn_number as int == add_cap(b0.turn_number as int, 1, u64::MAX as int)
                            && fb.winner == b0.winner && *final(attacker_prog) == ap0
                            && *final(defender_prog) == dp0 && *final(attacker_char) == ac_mid
                            && *final(defender_char) == dc0
                    })
                }
            }
        }),
{
    if battle.state != BattleState::Active {
        return Err(GameError::InvalidBattleState);
    }
    let is_p1 = if signer == battle.player1 {
        true
    } else if signer == battle.player2 {
        false
    } else {
        return Err(GameError::Unauthorized);
    };
    if is_p1 && battle.current_turn != 1 {
        return Err(GameError::NotYourTurn);
    }
    if !is_p1 && battle.current_turn != 2 {
        return Err(GameError::NotYourTurn);
    }
    if pool.total_available < crate::MIN_ENTROPY_PER_TURN {
        return Err(GameError::NoEntropyAvailable);
    }

    let mut p = pool.duplicate();
    let mut b = *battle;
    let mut ac = *attacker_char;
    let mut dc = *defender_char;
    let mut ap = *attacker_prog;
    let mut dp = *defender_prog;

    let t32 = turn32(b.turn_number);
    let min_d = ac.base_damage_min as u64;
    let max_d = ac.base_damage_max as u64;

    let (vbase, i1) = match p.consume_mixed_u64_return_index(signer, TAG_BASE, t32, min_d, max_d) {
        Ok(t) => t,
        Err(_) => {
            proof {
                assert(false);
            }
            return Err(GameError::NoEntropyAvailable);
        },
    };
    let (vcrit, i2) = match p.consume_mixed_u64_return_index(signer, TAG_CRIT, t32, 0, 9999) {
        Ok(t) => t,
        Err(_) => {
            proof {
                assert(false);
            }
            return Err(GameError::NoEntropyAvailable);
        },
    };
    let (vdodge, i3) = match p.consume_mixed_u64_return_index(signer, TAG_DODGE, t32, 0, 9999) {
        Ok(t) => t,
        Err(_) => {
            proof {
                assert(false);
            }
            return Err(GameError::NoEntropyAvailable);
        },
    };
    let (vwild, i4) = match p.consume_mixed_u64_return_index(signer, TAG_WILD, t32, 0, 9999) {
        Ok(t) => t,
        Err(_) => {
            proof {
                assert(false);
            }
            return Err(GameError::NoEntropyAvailable);
        },
    };
    if !(i1 > b.last_entropy_index && i2 > i1 && i3 > i2 && i4 > i3) {
        return Err(GameError::SeedReplay);
    }
    if use_special && ac.special_cooldown != 0 {
        return Err(GameError::SpecialOnCooldown);
    }

    b.last_action_ts = now;
    if is_p1 {
        b.player1_stance = chosen_stance;
    } else {
        b.player2_stance = chosen_stance;
    }
    b.last_entropy_index = i4;

    let def_stance = if is_p1 {
        b.player2_stance
    } else {
        b.player1_stance
    };
    let inp = TurnInputs {
        base: vbase,
        crit_roll: vcrit,
        dodge_roll: vdodge,
        level: ap.level,
        attacker_class: ac.base_class,
        crit_bps: ac.crit_bps,
        crit_multiplier_fp: ac.crit_multiplier_fp,
        last_damage: ac.last_damage,
        combo_count: ac.combo_count,
        dodge_bps: dc.dodge_bps,
        defense: dc.defense,
        att_stance: chosen_stance,
        def_stance,
        use_special,
    };
    let out = resolve_damage(inp);
    ac.combo_count = out.combo_count;
    ac.last_damage = out.last_damage;
    if use_special {
        ac.special_cooldown = special_cooldown_of(ac.base_class);
    }

    if is_p1 {
        b.player2_dot_damage = b.player2_dot_damage.saturating_add(out.dot_damage_added);
        b.player2_dot_turns = b.player2_dot_turns.saturating_add(out.dot_turns_added);
        b.player1_reflection = b.player1_reflection.saturating_add(out.reflection_added);
    } else {
        b.player1_dot_damage = b.player1_dot_damage.saturating_add(out.dot_damage_added);
        b.player1_dot_turns = b.player1_dot_turns.saturating_add(out.dot_turns_added);
        b.player2_reflection = b.player2_reflection.saturating_add(out.reflection_added);
    }

    let fd = out.final_damage;
    let refl = if is_p1 {
        b.player2_reflection
    } else {
        b.player1_reflection
    };
    proof {
        assert(fd * (refl as u64) <= 10_000_000 * 65535) by (nonlinear_arith)
            requires
                fd <= 10_000_000,
                refl <= 65535,
        ;
        assert(fd * (out.counter_bps as u64) <= 10_000_000 * 65535) by (nonlinear_arith)
            requires
                fd <= 10_000_000,
                out.counter_bps <= 65535,
        ;
        assert(fd * (out.self_bps as u64) <= 10_000_000 * 65535) by (nonlinear_arith)
            requires
                fd <= 10_000_000,
                out.self_bps <= 65535,
        ;
    }
    let reflected: u64 = if refl > 0 && fd > 0 {
        fd * (refl as u64) / 100
    } else {
        0
    };
    let counter: u64 = if out.counter_bps > 0 && fd > 0 {
        fd * (out.counter_bps as u64) / 10000
    } else {
        0
    };
    let selfd: u64 = if out.self_bps > 0 {
        fd * (out.self_bps as u64) / 10000
    } else {
        0
    };

    if out.dodged {
        if is_p1 {
            b.player2_miss_count = b.player2_miss_count.saturating_add(1);
        } else {
            b.player1_miss_count = b.player1_miss_count.saturating_add(1);
        }
    }

    if is_p1 {
        b.player2_health = b.player2_health.saturating_sub(fd);
        b.player1_health = b.player1_health.saturating_sub(reflected).saturating_sub(
            counter,
        ).saturating_sub(selfd);
    } else {
        b.player1_health = b.player1_health.saturating_sub(fd);
        b.player2_health = b.player2_health.saturating_sub(reflected).saturating_sub(
            counter,
        ).saturating_sub(selfd);
    }

    if ac.special_cooldown > 0 {
        ac.special_cooldown = ac.special_cooldown - 1;
    }

    let finished = b.player1_health == 0 || b.player2_health == 0;
    if finished {
        b.state = BattleState::Finished;
        let p1_won = b.player1_health > b.player2_health;
        let p2_won = b.player2_health > b.player1_health;
        b.winner = if p1_won {
            Some(b.player1)
        } else if p2_won {
            Some(b.player2)
        } else {
            None
        };
        if p1_won || p2_won {
            let att_won = if is_p1 {
                p1_won
            } else {
                p2_won
            };
            if att_won {
                ap.xp = ap.xp.saturating_add(100);
                level_up_if_needed(&mut ap, &mut ac);
            } else {
                dp.xp = dp.xp.saturating_add(100);
                level_up_if_needed(&mut dp, &mut dc);
            }
        } else {
            ap.xp = ap.xp.saturating_add(25);
            dp.xp = dp.xp.saturating_add(25);
            level_up_if_needed(&mut ap, &mut ac);
            level_up_if_needed(&mut dp, &mut dc);
        }
    } else {
        b.current_turn = if b.current_turn == 1 {
            2
        } else {
            1
        };
        b.turn_number = b.turn_number.saturating_add(1);
    }

    let report = TurnReport {
        base_draw: vbase,
        crit_roll: vcrit,
        dodge_roll: vdodge,
        wildcard: vwild,
        outcome: out,
        reflected,
        counter_damage: counter,
        self_damage: selfd,
        finished,
        winner: b.winner,
    };
    *pool = p;
    *battle = b;
    *attacker_char = ac;
    *defender_char = dc;
    *attacker_prog = ap;
    *defender_prog = dp;
    Ok(report)
}

/// The settlement split of a finished battle's escrow: the protocol fee, the
/// remaining payout, and who receives it (the treasury on a draw).
#[derive(Clone, Copy, Debug)]
pub struct Settlement {
    pub fee: u64,
    pub payout: u64,
    pub winner: Option<u64>,
}

/// Computes the payout split of a finished battle over the total escrowed
/// amount. The transfers themselves happen outside the core; this fixes the
/// amounts and the recipient.
pub fn finalize_battle(battle: &Battle, fee_bps: u16, total_escrow: u64) -> (r: Result<
    Settlement,
    GameError,
>)
    requires
        fee_bps <= 10_000,
    ensures
        ({
            if battle.state != BattleState::Finished {
                r matches Err(e) && e == GameError::BattleNotFinished
            } else {
                r matches Ok(s) && {
                    &&& s.fee == (total_escrow * fee_bps) / 10_000
                    &&& s.fee <= total_escrow
                    &&& s.payout == total_escrow - s.fee
                    &&& s.winner == battle.winner
                }
            }
        }),
{
    if battle.state != BattleState::Finished {
        return Err(GameError::BattleNotFinished);
    }
    proof {
        assert((total_escrow as int) * (fee_bps as int) <= 0xFFFF_FFFF_FFFF_FFFF * 10_000)
            by (nonlinear_arith)
            requires
                total_escrow <= 0xFFFF_FFFF_FFFF_FFFFu64,
                fee_bps <= 10_000,
        ;
    }
    let wide: u128 = (total_escrow as u128) * (fee_bps as u128) / 10_000;
    proof {
        assert((total_escrow as int) * (fee_bps as int) / 10_000 <= total_escrow as int)
            by (nonlinear_arith)
            requires
                fee_bps <= 10_000,
        ;
    }
    let fee = wide as u64;
    let payout = total_escrow - fee;
    Ok(Settlement { fee, payout, winner: battle.winner })
}

} // verus!
