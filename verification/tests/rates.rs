use enhancer_sim::params::{default_params, EnhancerParams, RATE_SCALE};
use enhancer_sim::rates::{generate_rates, EnhanceRate, RateError};

/// The worked scenario: three levels with exactly known rates.
fn scenario_params() -> EnhancerParams {
    EnhancerParams {
        max_level: 2,
        value_increment: 1000000,
        min_value: 0,
        upgrade_rate_curve: 500000,
        max_upgrade_rate: 800000,
        min_upgrade_rate: 100000,
        downgrade_rate_curve: 500000,
        max_downgrade_rate: 400000,
        halve_ratio: 500000,
        reset_ratio: 250000,
        min_downgrade_level: 0,
        min_halve_level: 1,
        min_reset_level: 2,
    }
}

#[test]
fn worked_scenario_rates() {
    let rates = generate_rates(scenario_params()).unwrap();
    assert_eq!(rates.len(), 3);

    let expected = [
        EnhanceRate { level: 0, value: 0, upgrade: 800000, downgrade: 200000, halve: 0, reset: 0 },
        EnhanceRate {
            level: 1,
            value: 1000000,
            upgrade: 400000,
            downgrade: 400000,
            halve: 200000,
            reset: 0,
        },
        EnhanceRate { level: 2, value: 2000000, upgrade: 0, downgrade: 0, halve: 0, reset: 0 },
    ];
    assert_eq!(rates, expected.to_vec());

    assert_eq!(rates[0].no_change_rate(), 0);
    assert_eq!(rates[1].no_change_rate(), 0);
    assert_eq!(rates[2].no_change_rate(), RATE_SCALE);
}

#[test]
fn rate_sums_within_budget() {
    for params in [default_params(), scenario_params()] {
        let rates = generate_rates(params).unwrap();
        for rate in &rates {
            assert!(rate.upgrade + rate.downgrade + rate.halve + rate.reset <= RATE_SCALE);
        }
    }
}

#[test]
fn terminal_level_absorbing() {
    for params in [default_params(), scenario_params()] {
        let rates = generate_rates(params).unwrap();
        let top = rates.last().unwrap();
        assert_eq!(top.level, params.max_level);
        assert_eq!(top.upgrade, 0);
        assert_eq!(top.downgrade, 0);
        assert_eq!(top.halve, 0);
        assert_eq!(top.reset, 0);
        assert_eq!(top.no_change_rate(), RATE_SCALE);
    }
}

#[test]
fn value_linear_and_non_decreasing() {
    let params = default_params();
    let rates = generate_rates(params).unwrap();
    for (i, rate) in rates.iter().enumerate() {
        assert_eq!(rate.value, params.min_value + (i as u64) * params.value_increment);
    }
    for pair in rates.windows(2) {
        assert!(pair[0].value <= pair[1].value);
    }
}

#[test]
fn downgrade_rate_non_decreasing_toward_max() {
    let params = default_params();
    let rates = generate_rates(params).unwrap();
    for level in params.min_downgrade_level..params.max_level - 1 {
        assert!(rates[level].downgrade <= rates[level + 1].downgrade);
    }
    // Just below the top the downgrade rate has grown all the way back to
    // its configured maximum.
    assert_eq!(rates[params.max_level - 1].downgrade, params.max_downgrade_rate);
}

#[test]
fn generate_rates_deterministic() {
    let params = default_params();
    let first = generate_rates(params).unwrap();
    let second = generate_rates(params).unwrap();
    assert_eq!(first, second);
}

#[test]
fn oversubscribed_config_rejected() {
    // With no decay and full halve/reset ratios, level 0 claims probability
    // 0.8 + 0.4 + 0.4 + 0.4 = 2.0: an invalid configuration.
    let params = EnhancerParams {
        max_level: 2,
        value_increment: 0,
        min_value: 0,
        upgrade_rate_curve: 1000000,
        max_upgrade_rate: 800000,
        min_upgrade_rate: 0,
        downgrade_rate_curve: 1000000,
        max_downgrade_rate: 400000,
        halve_ratio: 1000000,
        reset_ratio: 1000000,
        min_downgrade_level: 0,
        min_halve_level: 0,
        min_reset_level: 0,
    };
    let result = generate_rates(params);
    assert_eq!(result, Err(RateError::RateSumExceedsOne { level: 0 }));
}

#[test]
fn default_params_produce_valid_table() {
    let params = default_params();
    let rates = generate_rates(params).unwrap();
    assert_eq!(rates.len(), 11);
    // Level 0: full upgrade rate, downgrading disabled below level 1.
    assert_eq!(rates[0].upgrade, params.max_upgrade_rate);
    assert_eq!(rates[0].downgrade, 0);
    assert_eq!(rates[0].halve, 0);
    assert_eq!(rates[0].reset, 0);
    // The upgrade floor holds at high levels: 1.0 halved ten times would be
    // below 0.125, so the floor takes over.
    assert_eq!(rates[9].upgrade, params.min_upgrade_rate);
}
