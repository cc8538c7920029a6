use enhancer_sim::rates::EnhanceRate;
use enhancer_sim::transition::{apply_result, roll, roll_outcome, EnhanceResult};

fn scenario_level0() -> EnhanceRate {
    EnhanceRate { level: 0, value: 0, upgrade: 800000, downgrade: 200000, halve: 0, reset: 0 }
}

fn scenario_level1() -> EnhanceRate {
    EnhanceRate {
        level: 1,
        value: 1000000,
        upgrade: 400000,
        downgrade: 400000,
        halve: 200000,
        reset: 0,
    }
}

#[test]
fn roll_outcome_threshold_order_level0() {
    // Reset and halve are empty, downgrade claims [0, 0.2), upgrade
    // [0.2, 1.0); the sample 0.1 downgrades and 0.3 upgrades.
    let rate = scenario_level0();
    assert_eq!(roll_outcome(&rate, 0), EnhanceResult::Downgrade);
    assert_eq!(roll_outcome(&rate, 100000), EnhanceResult::Downgrade);
    assert_eq!(roll_outcome(&rate, 199999), EnhanceResult::Downgrade);
    assert_eq!(roll_outcome(&rate, 200000), EnhanceResult::Upgrade);
    assert_eq!(roll_outcome(&rate, 300000), EnhanceResult::Upgrade);
    assert_eq!(roll_outcome(&rate, 999999), EnhanceResult::Upgrade);
}

#[test]
fn roll_outcome_threshold_order_level1() {
    // Halve claims [0, 0.2), downgrade [0.2, 0.6), upgrade [0.6, 1.0).
    let rate = scenario_level1();
    assert_eq!(roll_outcome(&rate, 0), EnhanceResult::Halve);
    assert_eq!(roll_outcome(&rate, 199999), EnhanceResult::Halve);
    assert_eq!(roll_outcome(&rate, 200000), EnhanceResult::Downgrade);
    assert_eq!(roll_outcome(&rate, 599999), EnhanceResult::Downgrade);
    assert_eq!(roll_outcome(&rate, 600000), EnhanceResult::Upgrade);
    assert_eq!(roll_outcome(&rate, 999999), EnhanceResult::Upgrade);
}

#[test]
fn roll_outcome_no_change_remainder() {
    let rate =
        EnhanceRate { level: 3, value: 0, upgrade: 100000, downgrade: 50000, halve: 20000, reset: 10000 };
    // Cumulative: reset [0, 10000), halve [10000, 30000), downgrade
    // [30000, 80000), upgrade [80000, 180000), no-change the rest.
    assert_eq!(roll_outcome(&rate, 9999), EnhanceResult::Reset);
    assert_eq!(roll_outcome(&rate, 10000), EnhanceResult::Halve);
    assert_eq!(roll_outcome(&rate, 29999), EnhanceResult::Halve);
    assert_eq!(roll_outcome(&rate, 30000), EnhanceResult::Downgrade);
    assert_eq!(roll_outcome(&rate, 79999), EnhanceResult::Downgrade);
    assert_eq!(roll_outcome(&rate, 80000), EnhanceResult::Upgrade);
    assert_eq!(roll_outcome(&rate, 179999), EnhanceResult::Upgrade);
    assert_eq!(roll_outcome(&rate, 180000), EnhanceResult::NoChange);
    assert_eq!(roll_outcome(&rate, 999999), EnhanceResult::NoChange);
}

#[test]
fn apply_result_all_outcomes() {
    assert_eq!(apply_result(5, EnhanceResult::NoChange), 5);
    assert_eq!(apply_result(5, EnhanceResult::Upgrade), 6);
    assert_eq!(apply_result(5, EnhanceResult::Downgrade), 4);
    assert_eq!(apply_result(5, EnhanceResult::Halve), 2);
    assert_eq!(apply_result(6, EnhanceResult::Halve), 3);
    assert_eq!(apply_result(5, EnhanceResult::Reset), 0);
    // The downgrade floor at level 0: no underflow, the level stays 0.
    assert_eq!(apply_result(0, EnhanceResult::Downgrade), 0);
    assert_eq!(apply_result(0, EnhanceResult::Halve), 0);
}

#[test]
fn roll_draws_a_real_sample() {
    // A rate that gives the whole unit interval to upgrading must upgrade on
    // every draw: this fails if the sample ever left [0, 1).
    let always_up =
        EnhanceRate { level: 0, value: 0, upgrade: 1000000, downgrade: 0, halve: 0, reset: 0 };
    for _ in 0..100 {
        assert_eq!(roll(&always_up), EnhanceResult::Upgrade);
    }
    // And one that gives it all to resetting must always reset.
    let always_reset =
        EnhanceRate { level: 0, value: 0, upgrade: 0, downgrade: 0, halve: 0, reset: 1000000 };
    for _ in 0..100 {
        assert_eq!(roll(&always_reset), EnhanceResult::Reset);
    }
}
