use enhancer_sim::aggregate::max_history_length;
use enhancer_sim::params::EnhancerParams;
use enhancer_sim::rates::generate_rates;
use enhancer_sim::simulation::EnhancerSimulation;

fn actor_with_history(history: Vec<u64>) -> EnhancerSimulation {
    EnhancerSimulation {
        level: history.len().saturating_sub(1),
        attempt_count: *history.last().unwrap_or(&0),
        rates: Vec::new(),
        history,
    }
}

#[test]
fn boxplot_buckets_by_level() {
    let sims = vec![
        actor_with_history(vec![0, 2, 5]),
        actor_with_history(vec![0, 3]),
    ];
    let buckets = EnhancerSimulation::boxplot_data(&sims);
    assert_eq!(buckets, vec![vec![0, 0], vec![2, 3], vec![5]]);
}

#[test]
fn scatterplot_flattens_actor_by_actor() {
    let sims = vec![
        actor_with_history(vec![0, 2, 5]),
        actor_with_history(vec![0, 3]),
    ];
    let points = EnhancerSimulation::scatterplot_data(&sims);
    assert_eq!(points, vec![(0, 0), (1, 2), (2, 5), (0, 0), (1, 3)]);
}

#[test]
fn empty_population_aggregates_to_nothing() {
    let sims: Vec<EnhancerSimulation> = Vec::new();
    assert_eq!(max_history_length(&sims), 0);
    assert!(EnhancerSimulation::boxplot_data(&sims).is_empty());
    assert!(EnhancerSimulation::scatterplot_data(&sims).is_empty());
}

#[test]
fn aggregation_is_idempotent() {
    // Run a real population to convergence, then aggregate twice: the
    // transforms read the finished histories and change nothing.
    let params = EnhancerParams {
        max_level: 2,
        value_increment: 1000000,
        min_value: 0,
        upgrade_rate_curve: 500000,
        max_upgrade_rate: 800000,
        min_upgrade_rate: 100000,
        downgrade_rate_curve: 500000,
        max_downgrade_rate: 400000,
        halve_ratio: 500000,
        reset_ratio: 250000,
        min_downgrade_level: 0,
        min_halve_level: 1,
        min_reset_level: 2,
    };
    let rates = generate_rates(params).unwrap();
    let mut sims = EnhancerSimulation::create_many(&rates, 10);
    while !EnhancerSimulation::enhance_many(&mut sims) {}

    let boxes_first = EnhancerSimulation::boxplot_data(&sims);
    let boxes_second = EnhancerSimulation::boxplot_data(&sims);
    assert_eq!(boxes_first, boxes_second);

    let points_first = EnhancerSimulation::scatterplot_data(&sims);
    let points_second = EnhancerSimulation::scatterplot_data(&sims);
    assert_eq!(points_first, points_second);

    // Every actor walks levels 0..=2 in order, so all buckets are full.
    assert_eq!(boxes_first.len(), 3);
    for bucket in &boxes_first {
        assert_eq!(bucket.len(), 10);
    }
    assert_eq!(points_first.len(), 30);
}
