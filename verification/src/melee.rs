//! How one melee exchange is decided: the dice that are thrown for it, the
//! damage formula, and the rounding of the damage to whole hit points.

use crate::components::Position;
use crate::dice::{
    coin_draw, draw_coin, draw_ratio, draw_word, ratio_draw, rng_from_seed, rng_words,
    seeded_words, word_draw,
};
use crate::digest::{melee_digest, spec_melee_digest};
use crate::fixed::{Amount, Ratio, SCALE};
use vstd::prelude::*;

verus! {

/// How the dice bent the damage of a blow.
#[derive(Clone, Copy, Debug, PartialEq, Eq, Structural)]
pub enum Variance {
    /// Damage as the formula gives it.
    Normal,
    /// One and a half times the damage.
    Critical,
    /// Half the damage.
    Weak,
}

/// What the dice said of one exchange.
#[derive(Clone, Copy, Debug, PartialEq, Eq, Structural)]
pub enum MeleeRoll {
    /// The blow went wide.
    Miss,
    /// The blow lands. `bits` is a uniform draw below 2^24 that settles the
    /// rounding of the damage.
    Connect { variance: Variance, bits: u32 },
}

/// How one exchange ended.
#[derive(Clone, Copy, Debug, PartialEq, Eq, Structural)]
pub enum MeleeOutcome {
    /// The blow went wide.
    Miss,
    /// The blow landed for `damage` hit points, which may be none.
    Hit { damage: i32, variance: Variance },
}

/// Largest magnitude of a stat total that the damage formula takes: three
/// times what one `Fixed` can hold.
pub const STAT_LIMIT: i64 = 0x1_8000_0000;

/// Two to the power of 24: the number of values that the rounding draw takes.
pub const ROUND_STEPS: i128 = 0x100_0000;

/// The larger of two numbers.
pub open spec fn larger(a: int, b: int) -> int {
    if a >= b {
        a
    } else {
        b
    }
}

/// The smaller of two numbers.
pub open spec fn smaller(a: int, b: int) -> int {
    if a <= b {
        a
    } else {
        b
    }
}

/// Damage before variance and rounding, for stat totals counted in 65536ths.
///
/// With `a` the attack and `d` the defense as numbers: `a - d` where
/// `a >= 2 d`, and otherwise `a * (1/4 + min(1/4, a / (8 max(1, d))))`.
pub open spec fn spec_base_damage(attack: int, defense: int) -> Amount {
    if attack >= 2 * defense {
        Amount { num: attack - defense, den: SCALE as int }
    } else {
        let guard = larger(SCALE as int, defense);
        Amount {
            num: attack * (2 * guard + smaller(2 * guard, attack)),
            den: 8 * guard * SCALE,
        }
    }
}

/// Damage after the dice bent it.
pub open spec fn spec_varied(base: Amount, variance: Variance) -> Amount {
    match variance {
        Variance::Normal => base,
        Variance::Critical => Amount { num: 3 * base.num, den: 2 * base.den },
        Variance::Weak => Amount { num: base.num, den: 2 * base.den },
    }
}

/// Whether a rounding draw of `bits` out of 2^24 rounds `amount` up: it does
/// when `bits / 2^24` is less than the fractional part of a positive amount.
pub open spec fn spec_rounds_up(amount: Amount, bits: int) -> bool {
    amount.num > 0 && bits * amount.den < (amount.num % amount.den) * ROUND_STEPS
}

/// Whole hit points of an amount: nothing for an amount that is not
/// positive; otherwise the amount without its fractional part, plus one when
/// the draw rounds it up, and at most `i32::MAX`.
pub open spec fn spec_rounded(amount: Amount, bits: int) -> int {
    if amount.num <= 0 {
        0
    } else {
        smaller(
            i32::MAX as int,
            amount.num / amount.den + if spec_rounds_up(amount, bits) {
                1int
            } else {
                0int
            },
        )
    }
}

/// Hit points that a blow takes, from the stat totals of the two combatants
/// and what the dice said.
pub open spec fn spec_damage(attack: int, defense: int, variance: Variance, bits: int) -> int {
    spec_rounded(spec_varied(spec_base_damage(attack, defense), variance), bits)
}

/// How an exchange ends, given what the dice said.
pub open spec fn spec_outcome(roll: MeleeRoll, attack: int, defense: int) -> MeleeOutcome {
    match roll {
        MeleeRoll::Miss => MeleeOutcome::Miss,
        MeleeRoll::Connect { variance, bits } => MeleeOutcome::Hit {
            damage: spec_damage(attack, defense, variance, bits as int) as i32,
            variance,
        },
    }
}

/// What the dice say of an exchange whose digest is `digest`.
///
/// The draws are made in this order from a generator seeded with the digest:
/// unless the defender is asleep, one chance in ten of a miss; a coin for
/// whether the damage varies; if it does, a coin for critical or weak; one
/// 32-bit draw whose upper 24 bits settle the rounding.
pub open spec fn spec_roll(digest: u64, defender_asleep: bool) -> MeleeRoll {
    let start = seeded_words(digest);
    let (missed, after_miss) = if defender_asleep {
        (false, start)
    } else {
        ratio_draw(start, 1, 10)
    };
    if missed {
        MeleeRoll::Miss
    } else {
        let (varies, after_vary) = coin_draw(after_miss);
        let (critical, after_kind) = if varies {
            coin_draw(after_vary)
        } else {
            (false, after_vary)
        };
        let (word, _) = word_draw(after_kind);
        MeleeRoll::Connect {
            variance: if !varies {
                Variance::Normal
            } else if critical {
                Variance::Critical
            } else {
                Variance::Weak
            },
            bits: word / 256,
        }
    }
}

/// How an exchange ends. It is a function of the game seed, the turn counter,
/// the cells of the two combatants, whether the defender sleeps, and the two
/// stat totals, and of nothing else.
pub open spec fn spec_resolve_melee(
    game_seed: u64,
    turn_count: u64,
    attacker_cell: Option<Position>,
    defender_cell: Option<Position>,
    defender_asleep: bool,
    attack: int,
    defense: int,
) -> MeleeOutcome {
    spec_outcome(
        spec_roll(
            spec_melee_digest(game_seed, turn_count, attacker_cell, defender_cell),
            defender_asleep,
        ),
        attack,
        defense,
    )
}

/// Damage before variance and rounding.
pub fn base_damage(attack: i64, defense: i64) -> (base: Ratio)
    requires
        -STAT_LIMIT <= attack <= STAT_LIMIT,
        -STAT_LIMIT <= defense <= STAT_LIMIT,
    ensures
        base@ == spec_base_damage(attack as int, defense as int),
        0 < base.den <= 8 * STAT_LIMIT * SCALE,
        -4 * STAT_LIMIT * STAT_LIMIT <= base.num <= 4 * STAT_LIMIT * STAT_LIMIT,
{
    let a: i128 = attack as i128;
    let d: i128 = defense as i128;
    let scale: i128 = SCALE as i128;
    if a >= 2 * d {
        Ratio { num: a - d, den: scale }
    } else {
        let guard: i128 = if d >= scale {
            d
        } else {
            scale
        };
        let part: i128 = if 2 * guard <= a {
            2 * guard
        } else {
            a
        };
        let factor: i128 = 2 * guard + part;
        assert(-STAT_LIMIT <= factor <= 4 * STAT_LIMIT);
        assert(-4 * STAT_LIMIT * STAT_LIMIT <= a * factor <= 4 * STAT_LIMIT * STAT_LIMIT)
            by (nonlinear_arith)
            requires
                -STAT_LIMIT <= a <= STAT_LIMIT,
                -STAT_LIMIT <= factor <= 4 * STAT_LIMIT,
        ;
        assert(0 < 8 * guard * scale <= 8 * STAT_LIMIT * SCALE) by (nonlinear_arith)
            requires
                scale == SCALE,
                0 < guard <= STAT_LIMIT,
        ;
        Ratio { num: a * factor, den: 8 * guard * scale }
    }
}

/// Damage after the dice bent it.
pub fn varied(base: Ratio, variance: Variance) -> (amount: Ratio)
    requires
        0 < base.den <= 8 * STAT_LIMIT * SCALE,
        -4 * STAT_LIMIT * STAT_LIMIT <= base.num <= 4 * STAT_LIMIT * STAT_LIMIT,
    ensures
        amount@ == spec_varied(base@, variance),
        0 < amount.den <= 16 * STAT_LIMIT * SCALE,
        -12 * STAT_LIMIT * STAT_LIMIT <= amount.num <= 12 * STAT_LIMIT * STAT_LIMIT,
{
    match variance {
        Variance::Normal => base,
        Variance::Critical => Ratio { num: 3 * base.num, den: 2 * base.den },
        Variance::Weak => Ratio { num: base.num, den: 2 * base.den },
    }
}

/// Whole hit points of an amount, rounded up or down by the draw `bits`.
pub fn rounded(amount: Ratio, bits: u32) -> (damage: i32)
    requires
        0 < amount.den <= 16 * STAT_LIMIT * SCALE,
        -12 * STAT_LIMIT * STAT_LIMIT <= amount.num <= 12 * STAT_LIMIT * STAT_LIMIT,
        bits < ROUND_STEPS,
    ensures
        damage == spec_rounded(amount@, bits as int),
        damage >= 0,
{
    if amount.num <= 0 {
        return 0;
    }
    let whole: i128 = amount.num / amount.den;
    let rest: i128 = amount.num % amount.den;
    assert(0 <= whole <= amount.num) by (nonlinear_arith)
        requires
            whole == amount.num as int / amount.den as int,
            amount.num > 0,
            amount.den > 0,
    ;
    assert(bits as int * amount.den as int <= ROUND_STEPS * 16 * STAT_LIMIT * SCALE)
        by (nonlinear_arith)
        requires
            0 <= bits < ROUND_STEPS,
            0 < amount.den <= 16 * STAT_LIMIT * SCALE,
    ;
    assert(0 <= rest as int * ROUND_STEPS <= ROUND_STEPS * 16 * STAT_LIMIT * SCALE)
        by (nonlinear_arith)
        requires
            0 <= rest < amount.den,
            0 < amount.den <= 16 * STAT_LIMIT * SCALE,
    ;
    let up: i128 = if (bits as i128) * amount.den < rest * ROUND_STEPS {
        1
    } else {
        0
    };
    let total: i128 = whole + up;
    if total >= i32::MAX as i128 {
        i32::MAX
    } else {
        total as i32
    }
}

/// Hit points that a blow takes.
pub fn damage_of(attack: i64, defense: i64, variance: Variance, bits: u32) -> (damage: i32)
    requires
        -STAT_LIMIT <= attack <= STAT_LIMIT,
        -STAT_LIMIT <= defense <= STAT_LIMIT,
        bits < ROUND_STEPS,
    ensures
        damage == spec_damage(attack as int, defense as int, variance, bits as int),
        damage >= 0,
{
    rounded(varied(base_damage(attack, defense), variance), bits)
}

/// How an exchange ends, given what the dice said.
pub fn outcome_of(roll: MeleeRoll, attack: i64, defense: i64) -> (outcome: MeleeOutcome)
    requires
        -STAT_LIMIT <= attack <= STAT_LIMIT,
        -STAT_LIMIT <= defense <= STAT_LIMIT,
        roll matches MeleeRoll::Connect { bits, .. } ==> bits < ROUND_STEPS,
    ensures
        outcome == spec_outcome(roll, attack as int, defense as int),
        outcome matches MeleeOutcome::Hit { damage, .. } ==> damage >= 0,
        outcome is Miss <==> roll is Miss,
{
    match roll {
        MeleeRoll::Miss => MeleeOutcome::Miss,
        MeleeRoll::Connect { variance, bits } => MeleeOutcome::Hit {
            damage: damage_of(attack, defense, variance, bits),
            variance,
        },
    }
}

/// Throws the dice of the exchange whose digest is `digest`.
pub fn roll_melee(digest: u64, defender_asleep: bool) -> (roll: MeleeRoll)
    ensures
        roll == spec_roll(digest, defender_asleep),
        roll matches MeleeRoll::Connect { bits, .. } ==> bits < ROUND_STEPS,
        defender_asleep ==> !(roll is Miss),
{
    let mut rng = rng_from_seed(digest);
    if !defender_asleep && draw_ratio(&mut rng, 1, 10) {
        return MeleeRoll::Miss;
    }
    let mut variance = Variance::Normal;
    if draw_coin(&mut rng) {
        if draw_coin(&mut rng) {
            variance = Variance::Critical;
        } else {
            variance = Variance::Weak;
        }
    }
    let word: u32 = draw_word(&mut rng);
    MeleeRoll::Connect { variance, bits: word / 256 }
}

/// Decides one exchange from the round's seed and turn counter, the cells of
/// the combatants, whether the defender sleeps, and the two stat totals.
/// Nothing else enters: the same arguments give the same outcome in every
/// call.
pub fn resolve_melee(
    game_seed: u64,
    turn_count: u64,
    attacker_cell: Option<Position>,
    defender_cell: Option<Position>,
    defender_asleep: bool,
    attack: i64,
    defense: i64,
) -> (outcome: MeleeOutcome)
    requires
        -STAT_LIMIT <= attack <= STAT_LIMIT,
        -STAT_LIMIT <= defense <= STAT_LIMIT,
    ensures
        outcome == spec_resolve_melee(
            game_seed,
            turn_count,
            attacker_cell,
            defender_cell,
            defender_asleep,
            attack as int,
            defense as int,
        ),
        outcome matches MeleeOutcome::Hit { damage, .. } ==> damage >= 0,
        defender_asleep ==> !(outcome is Miss),
{
    let digest = melee_digest(game_seed, turn_count, attacker_cell, defender_cell);
    let roll = roll_melee(digest, defender_asleep);
    outcome_of(roll, attack, defense)
}

} // verus!
