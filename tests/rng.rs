use rusty_legions::rng::{next_u64, range, reseed, roll_dice, roll_parsed, roll_str, Dice, GameRng};

#[test]
fn seeded_rng_returns_expected_values() {
    let mut rng = GameRng::seeded(1);
    reseed(&mut rng, 123456789);
    assert_eq!(next_u64(&mut rng), 4730442134150660564);
    assert_eq!(next_u64(&mut rng), 12666920420498467706);
}

#[test]
fn range_is_within_range() {
    let mut rng = GameRng::seeded(99);
    for _ in 1..=100 {
        let result = range(&mut rng, 1, 10);
        assert!(result >= 1);
        assert!(result <= 10);
    }
}

#[test]
fn roll_str_1d10() {
    let mut rng = GameRng::seeded(3);
    for _ in 1..=100 {
        let result = roll_str(&mut rng, "1d10");
        assert!(result >= 1);
        assert!(result <= 10);
    }
}

#[test]
fn roll_str_2d20plus2() {
    let mut rng = GameRng::seeded(4);
    for _ in 1..=100 {
        let result = roll_str(&mut rng, "2d20+2");
        assert!(result >= 4);
        assert!(result <= 42);
    }
}

#[test]
fn roll_str_3d6minus5() {
    let mut rng = GameRng::seeded(5);
    for _ in 1..=100 {
        let result = roll_str(&mut rng, "3d6-5");
        assert!(result >= -2);
        assert!(result <= 13);
    }
}

#[test]
fn dice_bounds_hold_over_a_thousand_samples() {
    let mut rng = GameRng::seeded(2024);
    for _ in 0..1000 {
        let a = roll_str(&mut rng, "2d20+2");
        assert!((4..=42).contains(&a));
        let b = roll_str(&mut rng, "3d6-5");
        assert!((-2..=13).contains(&b));
    }
}

#[test]
fn range_includes_both_ends() {
    let mut rng = GameRng::seeded(11);
    let mut seen_low = false;
    let mut seen_high = false;
    for _ in 0..500 {
        let v = range(&mut rng, -1, 1);
        assert!((-1..=1).contains(&v));
        seen_low |= v == -1;
        seen_high |= v == 1;
    }
    assert!(seen_low && seen_high);
    assert_eq!(range(&mut rng, 5, 5), 5);
}

#[test]
fn fixed_dice_give_exact_totals() {
    let mut rng = GameRng::seeded(8);
    assert_eq!(roll_str(&mut rng, "1d1"), 1);
    assert_eq!(roll_str(&mut rng, "3d1+4"), 7);
    assert_eq!(roll_str(&mut rng, "2d1-5"), -3);
    assert_eq!(roll_dice(&mut rng, 4, 1), 4);
    assert_eq!(roll_dice(&mut rng, 0, 6), 0);
}

#[test]
fn malformed_dice_give_zero() {
    let mut rng = GameRng::seeded(9);
    assert_eq!(roll_str(&mut rng, "blah"), 0);
    assert_eq!(roll_str(&mut rng, ""), 0);
    assert_eq!(roll_str(&mut rng, "1d0"), 0);
}

#[test]
fn parsed_dice_rolls() {
    let mut rng = GameRng::seeded(10);
    assert_eq!(roll_parsed(&mut rng, None), 0);
    assert_eq!(roll_parsed(&mut rng, Some(Dice { n_dice: 2, die_type: 1, bonus: 3 })), 5);
    assert_eq!(roll_parsed(&mut rng, Some(Dice { n_dice: 1, die_type: 0, bonus: 3 })), 0);
    assert_eq!(roll_parsed(&mut rng, Some(Dice { n_dice: 0, die_type: 6, bonus: 3 })), 3);
    for _ in 0..200 {
        let v = roll_parsed(&mut rng, Some(Dice { n_dice: 2, die_type: 20, bonus: 2 }));
        assert!((4..=42).contains(&v));
    }
}

#[test]
fn same_seed_same_stream() {
    let mut a = GameRng::seeded(123456789);
    let mut b = GameRng::seeded(123456789);
    for _ in 0..20 {
        assert_eq!(next_u64(&mut a), next_u64(&mut b));
    }
}
