//! Characters and progression: the five fixed archetypes, their base stats,
//! externally authored trait modifiers, and the quadratic leveling curve.
use vstd::prelude::*;

use crate::MAX_COMBO_STACK;
use crate::errors::GameError;

verus! {

/// The closed set of character archetypes.
#[derive(Clone, Copy, PartialEq, Eq, Structural, Debug)]
pub enum CharacterClass {
    Warrior,
    Assassin,
    Mage,
    Tank,
    Trickster,
}

/// Compact, externally signed stat modifiers written into a character.
#[derive(Clone, Copy, PartialEq, Eq, Structural, Debug)]
pub struct TraitBundle {
    pub rarity: u8,
    pub attack_bps: i16,
    pub defense_bps: i16,
    pub crit_bps: i16,
    pub nonce: i64,
}

/// Combat stats and per-battle transient counters of one character.
#[derive(Clone, Copy, PartialEq, Eq, Structural, Debug)]
pub struct Character {
    pub nft_mint: u64,
    pub base_class: CharacterClass,
    pub max_hp: u32,
    pub current_hp: u32,
    pub base_damage_min: u16,
    pub base_damage_max: u16,
    pub crit_bps: u16,
    /// Configured critical-hit multiplier in fixed point. A fresh character
    /// carries zero, so until it is configured a critical hit multiplies by
    /// the capped value min(2.0, 0) — zero — and deals no damage.
    pub crit_multiplier_fp: u32,
    pub dodge_bps: u16,
    pub defense: u16,
    pub special_cooldown: u8,
    pub last_damage: u16,
    pub combo_count: u8,
    pub lifes: u8,
    pub mod_attack_bps: i16,
    pub mod_defense_bps: i16,
    pub mod_crit_bps: i16,
    pub rarity: u8,
    pub created_at: i64,
}

/// Base maximum hit points of a class.
pub open spec fn class_max_hp(class: CharacterClass) -> u32 {
    match class {
        CharacterClass::Warrior => 120,
        CharacterClass::Assassin => 90,
        CharacterClass::Mage => 80,
        CharacterClass::Tank => 150,
        CharacterClass::Trickster => 100,
    }
}

/// Lower end of a class's base damage range.
pub open spec fn class_damage_min(class: CharacterClass) -> u16 {
    match class {
        CharacterClass::Warrior => 8,
        CharacterClass::Assassin => 12,
        CharacterClass::Mage => 10,
        CharacterClass::Tank => 6,
        CharacterClass::Trickster => 8,
    }
}

/// Upper end of a class's base damage range.
pub open spec fn class_damage_max(class: CharacterClass) -> u16 {
    match class {
        CharacterClass::Warrior => 15,
        CharacterClass::Assassin => 20,
        CharacterClass::Mage => 18,
        CharacterClass::Tank => 12,
        CharacterClass::Trickster => 16,
    }
}

/// Critical-hit chance of a class, in basis points of 10000.
pub open spec fn class_crit_bps(class: CharacterClass) -> u16 {
    match class {
        CharacterClass::Warrior => 1500,
        CharacterClass::Assassin => 3500,
        CharacterClass::Mage => 2000,
        CharacterClass::Tank => 1000,
        CharacterClass::Trickster => 2500,
    }
}

/// Turns a class's special ability stays on cooldown after use.
pub open spec fn class_special_cooldown(class: CharacterClass) -> u8 {
    match class {
        CharacterClass::Warrior => 3,
        CharacterClass::Assassin => 4,
        CharacterClass::Mage => 3,
        CharacterClass::Tank => 4,
        CharacterClass::Trickster => 2,
    }
}

/// Gate for binding a character to a token: the token account must reference
/// the named mint, hold exactly one unit, and belong to the payer. Creation
/// may proceed only once this accepts.
pub fn check_nft_ownership(
    ata_mint: u64,
    ata_amount: u64,
    ata_owner: u64,
    nft_mint: u64,
    payer: u64,
) -> (r: Result<(), GameError>)
    ensures
        ({
            if ata_mint != nft_mint {
                r == Err::<(), GameError>(GameError::InvalidNftAta)
            } else if ata_amount != 1 {
                r == Err::<(), GameError>(GameError::NotNftOwner)
            } else if ata_owner != payer {
                r == Err::<(), GameError>(GameError::NotNftOwner)
            } else {
                r is Ok
            }
        }),
{
    if ata_mint != nft_mint {
        return Err(GameError::InvalidNftAta);
    }
    if ata_amount != 1 {
        return Err(GameError::NotNftOwner);
    }
    if ata_owner != payer {
        return Err(GameError::NotNftOwner);
    }
    Ok(())
}

/// Turns a class's special ability stays on cooldown after use.
pub fn special_cooldown_of(class: CharacterClass) -> (r: u8)
    ensures
        r == class_special_cooldown(class),
        2 <= r <= 4,
{
    match class {
        CharacterClass::Warrior => 3,
        CharacterClass::Assassin => 4,
        CharacterClass::Mage => 3,
        CharacterClass::Tank => 4,
        CharacterClass::Trickster => 2,
    }
}

impl Character {
    /// Character invariant: the combo stack stays under its cap and the
    /// damage range is ordered.
    pub open spec fn wf(self) -> bool {
        &&& self.combo_count <= MAX_COMBO_STACK
        &&& self.base_damage_min <= self.base_damage_max
    }
}

/// Creates a fresh character bound to `nft_mint` with the base stats of its
/// class; every tunable modifier starts at zero.
pub fn create_character_from_nft(nft_mint: u64, base_class: CharacterClass, now: i64) -> (c: Character)
    ensures
        c.wf(),
        c.nft_mint == nft_mint,
        c.base_class == base_class,
        c.max_hp == class_max_hp(base_class),
        c.current_hp == class_max_hp(base_class),
        c.base_damage_min == class_damage_min(base_class),
        c.base_damage_max == class_damage_max(base_class),
        c.crit_bps == class_crit_bps(base_class),
        c.crit_multiplier_fp == 0,
        c.dodge_bps == 0,
        c.defense == 0,
        c.special_cooldown == 0,
        c.last_damage == 0,
        c.combo_count == 0,
        c.lifes == 0,
        c.mod_attack_bps == 0,
        c.mod_defense_bps == 0,
        c.mod_crit_bps == 0,
        c.rarity == 0,
        c.created_at == now,
{
    let (max_hp, dmin, dmax, crit): (u32, u16, u16, u16) = match base_class {
        CharacterClass::Warrior => (120, 8, 15, 1500),
        CharacterClass::Assassin => (90, 12, 20, 3500),
        CharacterClass::Mage => (80, 10, 18, 2000),
        CharacterClass::Tank => (150, 6, 12, 1000),
        CharacterClass::Trickster => (100, 8, 16, 2500),
    };
    Character {
        nft_mint,
        base_class,
        max_hp,
        current_hp: max_hp,
        base_damage_min: dmin,
        base_damage_max: dmax,
        crit_bps: crit,
        crit_multiplier_fp: 0,
        dodge_bps: 0,
        defense: 0,
        special_cooldown: 0,
        last_damage: 0,
        combo_count: 0,
        lifes: 0,
        mod_attack_bps: 0,
        mod_defense_bps: 0,
        mod_crit_bps: 0,
        rarity: 0,
        created_at: now,
    }
}

/// `v` clamped into the `i16` range.
pub open spec fn sat_i16(v: int) -> int {
    if v > i16::MAX {
        i16::MAX as int
    } else if v < i16::MIN {
        i16::MIN as int
    } else {
        v
    }
}

/// Saturating `i16` addition.
pub fn sat_add_i16(a: i16, b: i16) -> (r: i16)
    ensures
        r as int == sat_i16(a + b),
{
    let wide: i32 = a as i32 + b as i32;
    if wide > i16::MAX as i32 {
        i16::MAX
    } else if wide < i16::MIN as i32 {
        i16::MIN
    } else {
        wide as i16
    }
}

/// Layers an externally signed trait bundle onto a character: only the
/// configured trait authority may write one; the basis-point modifiers add
/// saturating, and the rarity is overwritten.
pub fn apply_trait_bundle(
    ch: &mut Character,
    bundle: TraitBundle,
    trait_authority: u64,
    caller: u64,
) -> (r: Result<(), GameError>)
    requires
        old(ch).wf(),
    ensures
        final(ch).wf(),
        caller != trait_authority ==> r == Err::<(), GameError>(GameError::Unauthorized)
            && *final(ch) == *old(ch),
        caller == trait_authority ==> {
            &&& r is Ok
            &&& final(ch).mod_attack_bps as int == sat_i16(
                old(ch).mod_attack_bps + bundle.attack_bps,
            )
            &&& final(ch).mod_defense_bps as int == sat_i16(
                old(ch).mod_defense_bps + bundle.defense_bps,
            )
            &&& final(ch).mod_crit_bps as int == sat_i16(old(ch).mod_crit_bps + bundle.crit_bps)
            &&& final(ch).rarity == bundle.rarity
            &&& *final(ch) == (Character {
                mod_attack_bps: final(ch).mod_attack_bps,
                mod_defense_bps: final(ch).mod_defense_bps,
                mod_crit_bps: final(ch).mod_crit_bps,
                rarity: bundle.rarity,
                ..*old(ch)
            })
        },
{
    if caller != trait_authority {
        return Err(GameError::Unauthorized);
    }
    ch.mod_attack_bps = sat_add_i16(ch.mod_attack_bps, bundle.attack_bps);
    ch.mod_defense_bps = sat_add_i16(ch.mod_defense_bps, bundle.defense_bps);
    ch.mod_crit_bps = sat_add_i16(ch.mod_crit_bps, bundle.crit_bps);
    ch.rarity = bundle.rarity;
    Ok(())
}

/// Leveling and match-making state independent of any single battle.
#[derive(Clone, Copy, PartialEq, Eq, Structural, Debug)]
pub struct Progression {
    pub nft_mint: u64,
    pub xp: u64,
    pub level: u16,
    pub mmr: u64,
    pub last_played: i64,
}

impl Progression {
    /// Progression invariant: levels start at one and never fall below it.
    pub open spec fn wf(self) -> bool {
        self.level >= 1
    }
}

/// Creates the initial progression record for a character.
pub fn create_progression(nft_mint: u64) -> (p: Progression)
    ensures
        p.wf(),
        p == (Progression { nft_mint, xp: 0, level: 1, mmr: 100, last_played: 0 }),
{
    Progression { nft_mint, xp: 0, level: 1, mmr: 100, last_played: 0 }
}

/// Experience required to leave `level`: a fixed quadratic curve.
pub fn next_level_xp(level: u16) -> (r: u64)
    ensures
        r == 100 * (level as int) * (level as int),
{
    proof {
        assert((100 * (level as int)) * (level as int) <= 6553500 * 65535) by (nonlinear_arith)
            requires
                level <= 65535,
        ;
    }
    100u64 * (level as u64) * (level as u64)
}

/// `v` clamped into the `u32` range.
pub open spec fn sat_u32(v: int) -> int {
    if v > u32::MAX {
        u32::MAX as int
    } else {
        v
    }
}

/// `v` clamped into the `u16` range.
pub open spec fn sat_u16(v: int) -> int {
    if v > u16::MAX {
        u16::MAX as int
    } else {
        v
    }
}

/// Stat growth applied by one level-up: five percent more hit points and ten
/// percent more damage on both ends, each at least one point, saturating.
pub open spec fn grown_character(c: Character) -> Character {
    let hp_gain = if c.max_hp / 20 >= 1 {
        c.max_hp / 20
    } else {
        1
    };
    let min_gain = if c.base_damage_min / 10 >= 1 {
        c.base_damage_min / 10
    } else {
        1
    };
    let max_gain = if c.base_damage_max / 10 >= 1 {
        c.base_damage_max / 10
    } else {
        1
    };
    Character {
        max_hp: sat_u32(c.max_hp + hp_gain) as u32,
        current_hp: sat_u32(c.max_hp + hp_gain) as u32,
        base_damage_min: sat_u16(c.base_damage_min + min_gain) as u16,
        base_damage_max: sat_u16(c.base_damage_max + max_gain) as u16,
        ..c
    }
}

/// State after draining the experience pool: while the stored experience
/// covers the current level's quadratic threshold, the threshold is
/// deducted, the level rises (saturating), and the character's stats grow
/// with a full heal.
pub open spec fn spec_level_ups(p: Progression, c: Character) -> (Progression, Character)
    decreases p.xp,
{
    let need = 100 * (p.level as int) * (p.level as int);
    if need >= 1 && p.xp >= need {
        let p2 = Progression {
            xp: (p.xp - need) as u64,
            level: if p.level < u16::MAX {
                (p.level + 1) as u16
            } else {
                p.level
            },
            ..p
        };
        spec_level_ups(p2, grown_character(c))
    } else {
        (p, c)
    }
}

/// Applies every level-up the stored experience covers, growing the
/// character's stats and fully healing it on each level gained.
pub fn level_up_if_needed(prog: &mut Progression, ch: &mut Character)
    requires
        old(prog).wf(),
        old(ch).wf(),
    ensures
        final(prog).wf(),
        final(ch).wf(),
        *final(prog) == spec_level_ups(*old(prog), *old(ch)).0,
        *final(ch) == spec_level_ups(*old(prog), *old(ch)).1,
        final(prog).level >= old(prog).level,
{
    loop
        invariant
            prog.wf(),
            ch.wf(),
            prog.level >= old(prog).level,
            spec_level_ups(*prog, *ch) == spec_level_ups(*old(prog), *old(ch)),
        decreases prog.xp,
    {
        let need = next_level_xp(prog.level);
        proof {
            assert(100 * (prog.level as int) * (prog.level as int) >= 100) by (nonlinear_arith)
                requires
                    prog.level >= 1,
            ;
        }
        if prog.xp < need {
            return ;
        }
        prog.xp = prog.xp - need;
        prog.level = if prog.level < u16::MAX {
            prog.level + 1
        } else {
            prog.level
        };
        let hp_gain = if ch.max_hp / 20 >= 1 {
            ch.max_hp / 20
        } else {
            1u32
        };
        ch.max_hp = if ch.max_hp > u32::MAX - hp_gain {
            u32::MAX
        } else {
            ch.max_hp + hp_gain
        };
        ch.current_hp = ch.max_hp;
        let min_gain = if ch.base_damage_min / 10 >= 1 {
            ch.base_damage_min / 10
        } else {
            1u16
        };
        ch.base_damage_min = if ch.base_damage_min > u16::MAX - min_gain {
            u16::MAX
        } else {
            ch.base_damage_min + min_gain
        };
        let max_gain = if ch.base_damage_max / 10 >= 1 {
            ch.base_damage_max / 10
        } else {
            1u16
        };
        ch.base_damage_max = if ch.base_damage_max > u16::MAX - max_gain {
            u16::MAX
        } else {
            ch.base_damage_max + max_gain
        };
    }
}

} // verus!
