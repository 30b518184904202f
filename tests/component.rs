use rusty_legions::component::{Attribute, Intent, Pool, MOVE_COST};
use rusty_legions::gamelogic::{RollResult, RollResultType, Rollable};
use rusty_legions::rng::GameRng;

#[test]
fn new_pool_is_correct() {
    let pool = Pool::new(100);
    assert_eq!(pool.current, 100);
    assert_eq!(pool.max, 100);
    assert!(pool.is_full());
    assert!(!pool.is_empty());
}

#[test]
fn pool_decrease() {
    let mut pool = Pool::new(100);
    pool.decrease(10);
    assert_eq!(pool.current, 90);
    assert_eq!(pool.max, 100);
}

#[test]
fn pool_increase() {
    let mut pool = Pool::new(100);
    pool.decrease(10);
    pool.increase(10);
    assert_eq!(pool.current, 100);
    assert_eq!(pool.max, 100);
}

#[test]
fn pool_increase_doesnt_go_above_max() {
    let mut pool = Pool::new(100);
    pool.decrease(10);
    pool.increase(20);
    assert_eq!(pool.current, 100);
    assert_eq!(pool.max, 100);
}

#[test]
fn pool_decrease_doesnt_go_below_zero() {
    let mut pool = Pool::new(100);
    pool.decrease(150);
    assert_eq!(pool.current, 0);
    assert_eq!(pool.max, 100);
}

#[test]
fn pool_set_doesnt_go_above_max() {
    let mut pool = Pool::new(100);
    pool.set(50);
    assert_eq!(pool.current, 50);
    assert_eq!(pool.max, 100);
    pool.set(500);
    assert_eq!(pool.current, 100);
    assert_eq!(pool.max, 100);
}

#[test]
fn pool_set_doesnt_go_below_zero() {
    let mut pool = Pool::new(100);
    pool.set(-50);
    assert_eq!(pool.current, 0);
    assert_eq!(pool.max, 100);
}

#[test]
fn pool_can_be_emptied() {
    let mut pool = Pool::new(100);
    pool.empty();
    assert!(pool.is_empty());
}

#[test]
fn pool_can_be_filled() {
    let mut pool = Pool::new(100);
    pool.empty();
    pool.set_max();
    assert!(pool.is_full());
}

#[test]
fn attribute_roll_test() {
    let a = Attribute {
        base: 90,
        modifiers: 0,
        bonus: 0,
    };

    let result = a.check(89);
    println!("result: {:?}", result);
    assert_eq!(result, RollResult::Success(RollResultType::Normal));
}

#[test]
fn pool_init_keeps_both_values() {
    let pool = Pool::init(30, 100);
    assert_eq!(pool.current, 30);
    assert_eq!(pool.max, 100);
    assert!(!pool.is_full());
}

#[test]
fn pool_clamping_holds_over_many_steps() {
    let mut pool = Pool::new(40);
    for amount in [5, 70, -3, 12, 200, 1] {
        pool.increase(amount);
        assert!(pool.current <= pool.max);
        pool.decrease(amount * 2);
        assert!(pool.current >= 0);
        pool.set(amount * 3);
        assert!(pool.current >= 0 && pool.current <= pool.max);
    }
}

#[test]
fn attribute_check_thresholds_for_base_fifty() {
    let a = Attribute { base: 50, modifiers: 0, bonus: 0 };
    assert_eq!(a.check(1), RollResult::Success(RollResultType::Critical));
    assert_eq!(a.check(5), RollResult::Success(RollResultType::Extreme));
    assert_eq!(a.check(6), RollResult::Success(RollResultType::Great));
    assert_eq!(a.check(20), RollResult::Success(RollResultType::Great));
    assert_eq!(a.check(21), RollResult::Success(RollResultType::Normal));
    assert_eq!(a.check(50), RollResult::Success(RollResultType::Normal));
    assert_eq!(a.check(51), RollResult::Failure(RollResultType::Normal));
    assert_eq!(a.check(80), RollResult::Failure(RollResultType::Normal));
    assert_eq!(a.check(81), RollResult::Failure(RollResultType::Great));
    assert_eq!(a.check(96), RollResult::Failure(RollResultType::Extreme));
    assert_eq!(a.check(100), RollResult::Failure(RollResultType::Critical));
}

#[test]
fn attribute_check_small_base_uses_floors() {
    let a = Attribute { base: 5, modifiers: 0, bonus: 0 };
    assert_eq!(a.check(2), RollResult::Success(RollResultType::Extreme));
    assert_eq!(a.check(3), RollResult::Success(RollResultType::Great));
    assert_eq!(a.check(4), RollResult::Success(RollResultType::Normal));
    assert_eq!(a.check(90), RollResult::Failure(RollResultType::Great));
    assert_eq!(a.check(95), RollResult::Failure(RollResultType::Extreme));
    assert_eq!(a.check(62), RollResult::Failure(RollResultType::Normal));
}

#[test]
fn attribute_roll_through_trait() {
    let a = Attribute { base: 100, modifiers: 0, bonus: 0 };
    let mut rng = GameRng::seeded(7);
    for _ in 0..50 {
        match Rollable::roll(&a, &mut rng) {
            RollResult::Success(_) => {}
            RollResult::Failure(_) => panic!("a base of 100 cannot fail"),
        }
    }
}

#[test]
fn intent_costs() {
    assert_eq!(Intent::MoveRelative { dx: 1, dy: 0 }.energy_cost(), MOVE_COST);
    assert_eq!(Intent::MoveAbsolute { x: 3, y: 4 }.energy_cost(), MOVE_COST);
    assert_eq!(Intent::Nothing.energy_cost(), 0);
}
