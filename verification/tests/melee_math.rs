use rogue_turns::fixed::Fixed;
use rogue_turns::melee::{
    base_damage, damage_of, outcome_of, rounded, varied, MeleeOutcome, MeleeRoll, Variance,
};

fn raw(n: i16) -> i64 {
    Fixed::whole(n).raw as i64
}

#[test]
fn whole_numbers_are_scaled() {
    assert_eq!(Fixed::whole(1).raw, 65536);
    assert_eq!(Fixed::whole(-3).raw, -196608);
    assert_eq!(Fixed::whole(0).raw, 0);
    assert_eq!(Fixed::from_raw(98304).raw, 98304);
}

#[test]
fn linear_regime_subtracts_defense() {
    let base = base_damage(raw(10), raw(3));
    assert_eq!(base.num, 7 * base.den);
    assert_eq!(damage_of(raw(10), raw(3), Variance::Normal, 0), 7);
    assert_eq!(damage_of(raw(10), raw(3), Variance::Normal, 0xff_ffff), 7);
}

#[test]
fn linear_regime_starts_at_twice_the_defense() {
    let base = base_damage(raw(6), raw(3));
    assert_eq!(base.num, 3 * base.den);
    let below = base_damage(raw(6) - 1, raw(3));
    assert!(below.num * 65536 != (raw(3) - 1) as i128 * below.den);
}

#[test]
fn fractional_regime_scales_attack() {
    let base = base_damage(raw(10), raw(8));
    // 10 * (0.25 + min(0.25, 0.125 * 10 / 8)) = 10 * 0.40625 = 4.0625 = 65 / 16
    assert_eq!(base.num * 16, 65 * base.den);
}

#[test]
fn fractional_regime_rounds_by_the_draw() {
    // 4.0625 rounds up for draws below 0.0625 * 2^24
    assert_eq!(damage_of(raw(10), raw(8), Variance::Normal, 0), 5);
    assert_eq!(damage_of(raw(10), raw(8), Variance::Normal, 1_048_575), 5);
    assert_eq!(damage_of(raw(10), raw(8), Variance::Normal, 1_048_576), 4);
    assert_eq!(damage_of(raw(10), raw(8), Variance::Normal, 0xff_ffff), 4);
}

#[test]
fn defense_below_one_counts_as_one() {
    // attack 1, defense 0.75: 1 * (0.25 + min(0.25, 0.125 * 1 / 1)) = 0.375
    let base = base_damage(raw(1), 49152);
    assert_eq!(base.num * 8, 3 * base.den);
}

#[test]
fn damage_is_never_less_than_a_quarter_of_attack() {
    // attack 4, defense 1000: 4 * (0.25 + 0.125 * 4 / 1000) = 1.002
    let base = base_damage(raw(4), raw(1000));
    assert!(base.num >= base.den);
    assert_eq!(base.num * 1000, 1002 * base.den);
}

#[test]
fn critical_is_one_and_a_half_times() {
    let amount = varied(base_damage(raw(10), raw(3)), Variance::Critical);
    assert_eq!(amount.num * 2, 21 * amount.den);
    assert_eq!(damage_of(raw(10), raw(3), Variance::Critical, 8_388_607), 11);
    assert_eq!(damage_of(raw(10), raw(3), Variance::Critical, 8_388_608), 10);
}

#[test]
fn weak_is_half() {
    let amount = varied(base_damage(raw(10), raw(3)), Variance::Weak);
    assert_eq!(amount.num * 2, 7 * amount.den);
    assert_eq!(damage_of(raw(10), raw(3), Variance::Weak, 8_388_607), 4);
    assert_eq!(damage_of(raw(10), raw(3), Variance::Weak, 8_388_608), 3);
}

#[test]
fn normal_leaves_the_amount() {
    let base = base_damage(raw(10), raw(3));
    let amount = varied(base, Variance::Normal);
    assert_eq!((amount.num, amount.den), (base.num, base.den));
}

#[test]
fn three_and_a_tenth_rounds_up_one_time_in_ten() {
    // 3.1 as a fixed-point number is 203162 / 65536
    let attack = 203162 + raw(2);
    let defense = raw(2);
    let mut ups = 0;
    let steps = 1 << 12;
    for i in 0..steps {
        let bits = i * ((1 << 24) / steps);
        let damage = damage_of(attack, defense, Variance::Normal, bits);
        assert!(damage == 3 || damage == 4);
        if damage == 4 {
            ups += 1;
        }
    }
    assert_eq!(ups, 410);
}

#[test]
fn amounts_that_are_not_positive_take_nothing() {
    assert_eq!(damage_of(0, raw(5), Variance::Normal, 0), 0);
    assert_eq!(damage_of(raw(-1), raw(1), Variance::Critical, 0), 0);
    assert_eq!(damage_of(raw(-4), raw(-3), Variance::Normal, 0), 0);
    assert_eq!(damage_of(raw(-2), raw(-1), Variance::Normal, 0), 0);
}

#[test]
fn whole_amounts_never_round_up() {
    assert_eq!(rounded(base_damage(raw(9), raw(2)), 0), 7);
}

#[test]
fn small_amounts_may_round_to_nothing() {
    // attack 1, defense 8: 1 * (0.25 + 0.125 / 8) = 0.265625
    assert_eq!(damage_of(raw(1), raw(8), Variance::Normal, 4_456_447), 1);
    assert_eq!(damage_of(raw(1), raw(8), Variance::Normal, 4_456_448), 0);
}

#[test]
fn a_miss_stays_a_miss() {
    assert_eq!(outcome_of(MeleeRoll::Miss, raw(10), raw(3)), MeleeOutcome::Miss);
}

#[test]
fn a_blow_that_connects_has_the_damage_of_its_roll() {
    let roll = MeleeRoll::Connect { variance: Variance::Weak, bits: 0 };
    assert_eq!(
        outcome_of(roll, raw(10), raw(3)),
        MeleeOutcome::Hit { damage: 4, variance: Variance::Weak }
    );
}

#[test]
fn the_largest_stats_do_not_overflow() {
    let limit: i64 = 0x1_8000_0000;
    assert_eq!(damage_of(limit, -limit, Variance::Critical, 0), 294912);
    assert_eq!(damage_of(limit, limit, Variance::Normal, 0xff_ffff), 36864);
    assert_eq!(damage_of(limit, limit, Variance::Critical, 0xff_ffff), 55296);
    assert_eq!(damage_of(-limit, limit, Variance::Normal, 0), 0);
}

#[test]
fn the_formula_holds_for_negative_stats_too() {
    // attack -4, defense -1: -4 * (0.25 + min(0.25, 0.125 * -4 / 1)) = -4 * -0.25 = 1
    let base = base_damage(raw(-4), raw(-1));
    assert_eq!(base.num, base.den);
    assert_eq!(damage_of(raw(-4), raw(-1), Variance::Critical, 0), 2);
    assert_eq!(damage_of(raw(-4), raw(-1), Variance::Critical, 8_388_608), 1);
}
