//! The fixed-point damage pipeline: base roll, crit, combo, special, stances,
//! global clamp, defense and dodge, all in millionth-scale integer
//! arithmetic with every overflow either proved away or rejected.
use vstd::prelude::*;

use vstd::arithmetic::div_mod::lemma_div_is_ordered;
use vstd::arithmetic::mul::lemma_mul_nonnegative;
use vstd::arithmetic::mul::lemma_mul_upper_bound;

use crate::FP_SCALE;
use crate::MAX_TOTAL_MULTIPLIER_FP;
use crate::MAX_COMBO_STACK;
use crate::character::CharacterClass;
use crate::errors::GameError;

verus! {

/// Per-turn tactical choice modifying attack and defense multipliers.
#[derive(Clone, Copy, PartialEq, Eq, Structural, Debug)]
pub enum StanceType {
    Balanced,
    Aggressive,
    Defensive,
    Berserker,
    Counter,
}

/// Millionth-scale fixed-point product.
pub open spec fn fp_mul(a: int, b: int) -> int {
    (a * b) / 1_000_000
}

/// Multiplies two fixed-point values, failing fast on overflow instead of
/// wrapping.
pub fn mul_fp_checked(value_fp: u128, mul_fp: u128) -> (r: Result<u128, GameError>)
    ensures
        match r {
            Ok(v) => (value_fp as int) * (mul_fp as int) <= u128::MAX && v as int == fp_mul(
                value_fp as int,
                mul_fp as int,
            ),
            Err(e) => e == GameError::MathOverflow && (value_fp as int) * (mul_fp as int)
                > u128::MAX,
        },
{
    match value_fp.checked_mul(mul_fp) {
        Some(prod) => Ok(prod / FP_SCALE),
        None => Err(GameError::MathOverflow),
    }
}

/// Converts a fixed-point value to whole units, failing with `err` when the
/// result does not fit 64 bits.
pub fn fp_to_u64_clamped(value_fp: u128, err: GameError) -> (r: Result<u64, GameError>)
    ensures
        match r {
            Ok(v) => v as int == (value_fp as int) / 1_000_000 && (value_fp as int) / 1_000_000
                <= u64::MAX,
            Err(e) => e == err && (value_fp as int) / 1_000_000 > u64::MAX,
        },
{
    let val = value_fp / FP_SCALE;
    if val > u64::MAX as u128 {
        Err(err)
    } else {
        Ok(val as u64)
    }
}

/// Attacker multiplier, defender multiplier (both fixed point), attacker
/// self-damage and defender counter-damage (both basis points) of a stance
/// pairing.
pub open spec fn spec_stance_multipliers(att: StanceType, def: StanceType) -> (int, int, int, int) {
    let att_fp: int = match att {
        StanceType::Aggressive => 1_300_000,
        StanceType::Defensive => 700_000,
        StanceType::Berserker => 2_000_000,
        StanceType::Counter => 900_000,
        StanceType::Balanced => 1_000_000,
    };
    let self_bps: int = if att is Berserker {
        2500
    } else {
        0
    };
    let def_fp: int = match def {
        StanceType::Defensive => 500_000,
        StanceType::Aggressive => 1_500_000,
        _ => 1_000_000,
    };
    let counter_bps: int = if def is Counter {
        4000
    } else {
        0
    };
    (att_fp, def_fp, self_bps, counter_bps)
}

/// Returns (attacker multiplier, defender multiplier, self-damage bps,
/// counter bps) for a stance pairing.
pub fn stance_multipliers(att: StanceType, def: StanceType) -> (r: (u128, u128, u16, u16))
    ensures
        (r.0 as int, r.1 as int, r.2 as int, r.3 as int) == spec_stance_multipliers(att, def),
        1 <= r.0 <= 2_000_000,
        1 <= r.1 <= 1_500_000,
{
    let mut att_fp: u128 = 1_000_000;
    let mut def_fp: u128 = 1_000_000;
    let mut self_bps: u16 = 0;
    let mut counter_bps: u16 = 0;
    match att {
        StanceType::Aggressive => {
            att_fp = 1_300_000;
        },
        StanceType::Defensive => {
            att_fp = 700_000;
        },
        StanceType::Berserker => {
            att_fp = 2_000_000;
            self_bps = 2500;
        },
        StanceType::Counter => {
            att_fp = 900_000;
        },
        StanceType::Balanced => {},
    }
    match def {
        StanceType::Defensive => {
            def_fp = 500_000;
        },
        StanceType::Aggressive => {
            def_fp = 1_500_000;
        },
        StanceType::Counter => {
            counter_bps = 4000;
        },
        _ => {},
    }
    (att_fp, def_fp, self_bps, counter_bps)
}

/// Special-ability effect of a class when fired: damage multiplier (fixed
/// point), damage-over-time added to the defender (amount and turns), and
/// reflection percentage granted to the caster.
pub open spec fn spec_special_effects(class: CharacterClass, use_special: bool) -> (int, u64, u8, u16) {
    if !use_special {
        (1_000_000, 0, 0, 0)
    } else {
        match class {
            CharacterClass::Warrior => (3_000_000, 0, 0, 0),
            CharacterClass::Assassin => (3_000_000, 0, 0, 0),
            CharacterClass::Mage => (1_000_000, 5, 3, 0),
            CharacterClass::Tank => (1_000_000, 0, 0, 50),
            CharacterClass::Trickster => (2_000_000, 0, 0, 0),
        }
    }
}

/// The base damage as it is remembered for combo detection: clipped to the
/// 16-bit record the character carries.
pub open spec fn base_clip(base: u64) -> int {
    if base > 65535 {
        65535
    } else {
        base as int
    }
}

/// Everything the turn engine needs from the attacker, the defender and the
/// three decisive draws to resolve one attack.
#[derive(Clone, Copy, PartialEq, Eq, Structural, Debug)]
pub struct TurnInputs {
    pub base: u64,
    pub crit_roll: u64,
    pub dodge_roll: u64,
    pub level: u16,
    pub attacker_class: CharacterClass,
    pub crit_bps: u16,
    pub crit_multiplier_fp: u32,
    pub last_damage: u16,
    pub combo_count: u8,
    pub dodge_bps: u16,
    pub defense: u16,
    pub att_stance: StanceType,
    pub def_stance: StanceType,
    pub use_special: bool,
}

/// The fully resolved attack: the damage that lands plus every side effect
/// the battle state must absorb.
#[derive(Clone, Copy, PartialEq, Eq, Structural, Debug)]
pub struct DamageOutcome {
    pub final_damage: u64,
    pub is_crit: bool,
    pub dodged: bool,
    pub combo_applied: bool,
    pub combo_count: u8,
    pub last_damage: u16,
    pub clamped: bool,
    pub dot_damage_added: u64,
    pub dot_turns_added: u8,
    pub reflection_added: u16,
    pub self_bps: u16,
    pub counter_bps: u16,
}

/// The crit multiplier actually applied: the configured one, capped at two.
pub open spec fn crit_mult_of(configured: u32) -> int {
    if configured >= 2_000_000 {
        2_000_000
    } else {
        configured as int
    }
}

/// The combo stack after one attack: one deeper (capped) on a repeated base
/// roll, reset otherwise.
pub open spec fn combo_after(combo: u8, hit: bool) -> int {
    if hit {
        if combo + 1 > MAX_COMBO_STACK {
            MAX_COMBO_STACK as int
        } else {
            combo + 1
        }
    } else {
        0
    }
}

/// Law: the combo stack never exceeds its cap of five, whatever the streak
/// length — one attack takes it at most one deeper and clips it at the cap,
/// and a broken streak resets it to zero.
pub proof fn lemma_combo_never_exceeds_cap(combo: u8, hit: bool)
    requires
        combo <= MAX_COMBO_STACK,
    ensures
        0 <= combo_after(combo, hit) <= MAX_COMBO_STACK,
{
}

/// The damage pipeline in order: base plus level bonus, crit, combo,
/// special, attacker stance, defender stance, ten-times clamp, whole-unit
/// conversion, flat defense, dodge.
pub open spec fn spec_resolve_damage(inp: TurnInputs) -> DamageOutcome {
    let eb = inp.base + 2 * (inp.level - 1);
    let d0 = eb * 1_000_000;
    let is_crit = (inp.crit_roll as int) < (inp.crit_bps as int);
    let d1 = if is_crit {
        fp_mul(d0, crit_mult_of(inp.crit_multiplier_fp))
    } else {
        d0
    };
    let combo_hit = (inp.last_damage as int) == base_clip(inp.base);
    let new_combo = combo_after(inp.combo_count, combo_hit);
    let d2 = if combo_hit {
        fp_mul(d1, 1_000_000 + 150_000 * new_combo)
    } else {
        d1
    };
    let effects = spec_special_effects(inp.attacker_class, inp.use_special);
    let d3 = if inp.use_special {
        fp_mul(d2, effects.0)
    } else {
        d2
    };
    let sm = spec_stance_multipliers(inp.att_stance, inp.def_stance);
    let d4 = fp_mul(fp_mul(d3, sm.0), sm.1);
    let clamped = d4 > 10_000_000_000_000;
    let d5 = if clamped {
        10_000_000_000_000
    } else {
        d4
    };
    let whole = d5 / 1_000_000;
    let after_defense = if whole > inp.defense {
        whole - inp.defense
    } else {
        0
    };
    let dodged = (inp.dodge_roll as int) < (inp.dodge_bps as int);
    let landed = if dodged {
        0
    } else {
        after_defense
    };
    DamageOutcome {
        final_damage: landed as u64,
        is_crit,
        dodged,
        combo_applied: combo_hit,
        combo_count: new_combo as u8,
        last_damage: base_clip(inp.base) as u16,
        clamped,
        dot_damage_added: effects.1,
        dot_turns_added: effects.2,
        reflection_added: effects.3,
        self_bps: sm.2 as u16,
        counter_bps: sm.3 as u16,
    }
}

/// Bound on a fixed-point product of two bounded non-negative factors.
proof fn lemma_fp_mul_bound(a: int, ab: int, b: int, bb: int)
    requires
        0 <= a <= ab,
        0 <= b <= bb,
    ensures
        0 <= fp_mul(a, b) <= (ab * bb) / 1_000_000,
        a * b <= ab * bb,
{
    lemma_mul_upper_bound(a, ab, b, bb);
    lemma_mul_nonnegative(a, b);
    lemma_div_is_ordered(a * b, ab * bb, 1_000_000);
}

/// Resolves one attack through the whole pipeline. Total for every input the
/// battle engine can feed it: with the base roll in 16-bit range the
/// fixed-point chain cannot overflow, so no failure path remains.
#[verifier::rlimit(80)]
pub fn resolve_damage(inp: TurnInputs) -> (r: DamageOutcome)
    requires
        inp.base <= u16::MAX,
        inp.level >= 1,
        inp.combo_count <= MAX_COMBO_STACK,
    ensures
        r == spec_resolve_damage(inp),
        r.combo_count <= MAX_COMBO_STACK,
        r.final_damage <= 10_000_000,
        r.dodged ==> r.final_damage == 0,
{
    let eb: u128 = inp.base as u128 + 2 * (inp.level as u128 - 1);
    assert(eb <= 196603);
    let d0: u128 = eb * FP_SCALE;
    assert(d0 <= 196_603_000_000);

    let is_crit = inp.crit_roll < inp.crit_bps as u64;
    let crit_mult: u128 = if inp.crit_multiplier_fp as u128 >= 2_000_000 {
        2_000_000
    } else {
        inp.crit_multiplier_fp as u128
    };
    proof {
        lemma_fp_mul_bound(d0 as int, 196_603_000_000, crit_mult as int, 2_000_000);
    }
    let d1: u128 = if is_crit {
        match mul_fp_checked(d0, crit_mult) {
            Ok(v) => v,
            Err(_) => {
                proof {
                    assert(false);
                }
                0
            },
        }
    } else {
        d0
    };
    assert(d1 <= 393_206_000_000);

    let base_clipped: u16 = if inp.base > 65535 {
        65535
    } else {
        inp.base as u16
    };
    let combo_hit = inp.last_damage == base_clipped;
    let new_combo: u8 = if combo_hit {
        if inp.combo_count + 1 > MAX_COMBO_STACK {
            MAX_COMBO_STACK
        } else {
            inp.combo_count + 1
        }
    } else {
        0
    };
    proof {
        lemma_fp_mul_bound(
            d1 as int,
            393_206_000_000,
            1_000_000 + 150_000 * (new_combo as int),
            1_750_000,
        );
    }
    let d2: u128 = if combo_hit {
        match mul_fp_checked(d1, 1_000_000 + 150_000 * new_combo as u128) {
            Ok(v) => v,
            Err(_) => {
                proof {
                    assert(false);
                }
                0
            },
        }
    } else {
        d1
    };
    assert(d2 <= 688_110_500_000);

    let special_mult: u128 = if !inp.use_special {
        1_000_000
    } else {
        match inp.attacker_class {
            CharacterClass::Warrior => 3_000_000,
            CharacterClass::Assassin => 3_000_000,
            CharacterClass::Mage => 1_000_000,
            CharacterClass::Tank => 1_000_000,
            CharacterClass::Trickster => 2_000_000,
        }
    };
    let (dot_damage_added, dot_turns_added, reflection_added): (u64, u8, u16) = if !inp.use_special {
        (0, 0, 0)
    } else {
        match inp.attacker_class {
            CharacterClass::Mage => (5, 3, 0),
            CharacterClass::Tank => (0, 0, 50),
            _ => (0, 0, 0),
        }
    };
    proof {
        lemma_fp_mul_bound(d2 as int, 688_110_500_000, special_mult as int, 3_000_000);
    }
    let d3: u128 = if inp.use_special {
        match mul_fp_checked(d2, special_mult) {
            Ok(v) => v,
            Err(_) => {
                proof {
                    assert(false);
                }
                0
            },
        }
    } else {
        d2
    };
    assert(d3 <= 2_064_331_500_000);

    let (att_fp, def_fp, self_bps, counter_bps) = stance_multipliers(inp.att_stance, inp.def_stance);
    proof {
        lemma_fp_mul_bound(d3 as int, 2_064_331_500_000, att_fp as int, 2_000_000);
    }
    let d4a: u128 = match mul_fp_checked(d3, att_fp) {
        Ok(v) => v,
        Err(_) => {
            proof {
                assert(false);
            }
            0
        },
    };
    assert(d4a <= 4_128_663_000_000);
    proof {
        lemma_fp_mul_bound(d4a as int, 4_128_663_000_000, def_fp as int, 1_500_000);
    }
    let d4: u128 = match mul_fp_checked(d4a, def_fp) {
        Ok(v) => v,
        Err(_) => {
            proof {
                assert(false);
            }
            0
        },
    };
    assert(d4 <= 6_192_994_500_000);

    let cap: u128 = MAX_TOTAL_MULTIPLIER_FP * FP_SCALE;
    let clamped = d4 > cap;
    let d5: u128 = if clamped {
        cap
    } else {
        d4
    };

    let whole: u64 = match fp_to_u64_clamped(d5, GameError::MathOverflow) {
        Ok(v) => v,
        Err(_) => {
            proof {
                assert(false);
            }
            0
        },
    };
    assert(whole <= 10_000_000);
    let after_defense = whole.saturating_sub(inp.defense as u64);
    let dodged = inp.dodge_roll < inp.dodge_bps as u64;
    let landed = if dodged {
        0
    } else {
        after_defense
    };
    DamageOutcome {
        final_damage: landed,
        is_crit,
        dodged,
        combo_applied: combo_hit,
        combo_count: new_combo,
        last_damage: base_clipped,
        clamped,
        dot_damage_added,
        dot_turns_added,
        reflection_added,
        self_bps,
        counter_bps,
    }
}

} // verus!
