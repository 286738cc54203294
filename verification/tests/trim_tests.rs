use flyer_core::rng::SplitMix;
use flyer_core::trim::{
    trim, ControlVector, CostFunction, DeviationCost, SearchBox, TrimOutcome, SWARM_SIZE,
};

fn l1_cost(target: ControlVector, p: ControlVector) -> i64 {
    (p.pitch - target.pitch).abs()
        + (p.secondary - target.secondary).abs()
        + (p.throttle - target.throttle).abs()
}

// The initial population, reproduced the same way the solver draws it:
// three consecutive range-reduced draws per particle.
fn initial_population(seed: u64, bounds: &SearchBox) -> Vec<ControlVector> {
    let mut rng = SplitMix::new(seed);
    let mut population = Vec::new();
    for _ in 0..SWARM_SIZE {
        let pitch = rng.next_in_range(bounds.lo.pitch, bounds.hi.pitch);
        let secondary = rng.next_in_range(bounds.lo.secondary, bounds.hi.secondary);
        let throttle = rng.next_in_range(bounds.lo.throttle, bounds.hi.throttle);
        population.push(ControlVector { pitch, secondary, throttle });
    }
    population
}

fn in_box(bounds: &SearchBox, p: ControlVector) -> bool {
    bounds.lo.pitch <= p.pitch
        && p.pitch <= bounds.hi.pitch
        && bounds.lo.secondary <= p.secondary
        && p.secondary <= bounds.hi.secondary
        && bounds.lo.throttle <= p.throttle
        && p.throttle <= bounds.hi.throttle
}

// The returned best cost is at or below the cost of every member of the
// initial random population.
#[test]
fn best_cost_dominates_initial_population() {
    let target = ControlVector { pitch: 5_000, secondary: -2_000, throttle: 700 };
    let cost = DeviationCost { target };
    let bounds = SearchBox::standard();
    match trim(&cost, &bounds, 12345, 50) {
        TrimOutcome::Converged { best, cost: best_cost } => {
            assert_eq!(best_cost, l1_cost(target, best));
            for member in initial_population(12345, &bounds) {
                assert!(best_cost <= l1_cost(target, member));
            }
        },
        TrimOutcome::Aborted { .. } => panic!("a total cost cannot abort the search"),
    }
}

// Two runs with identical inputs and the same seed give the same result.
#[test]
fn trim_is_deterministic_for_a_fixed_seed() {
    let cost = DeviationCost {
        target: ControlVector { pitch: -1_000, secondary: 500, throttle: 250 },
    };
    let bounds = SearchBox::standard();
    let first = trim(&cost, &bounds, 99, 30);
    let second = trim(&cost, &bounds, 99, 30);
    assert_eq!(first, second);
}

// With zero generations the result is exactly the best member of the
// initial population.
#[test]
fn zero_iterations_return_the_initial_best() {
    let target = ControlVector { pitch: 0, secondary: 0, throttle: 0 };
    let cost = DeviationCost { target };
    let bounds = SearchBox::standard();
    match trim(&cost, &bounds, 7, 0) {
        TrimOutcome::Converged { best, cost: best_cost } => {
            let initial_best = initial_population(7, &bounds)
                .into_iter()
                .map(|p| l1_cost(target, p))
                .min()
                .unwrap();
            assert_eq!(best_cost, initial_best);
            assert_eq!(best_cost, l1_cost(target, best));
        },
        TrimOutcome::Aborted { .. } => panic!("a total cost cannot abort the search"),
    }
}

// More generations never worsen the result for the same seed.
#[test]
fn more_iterations_never_worsen_the_best() {
    let target = ControlVector { pitch: 12_000, secondary: 3_000, throttle: 900 };
    let cost = DeviationCost { target };
    let bounds = SearchBox::standard();
    let short = match trim(&cost, &bounds, 4242, 0) {
        TrimOutcome::Converged { cost: c, .. } => c,
        TrimOutcome::Aborted { .. } => panic!("a total cost cannot abort the search"),
    };
    let long = match trim(&cost, &bounds, 4242, 200) {
        TrimOutcome::Converged { cost: c, .. } => c,
        TrimOutcome::Aborted { .. } => panic!("a total cost cannot abort the search"),
    };
    assert!(long <= short);
}

#[test]
fn result_lies_in_the_search_box() {
    let cost = DeviationCost {
        target: ControlVector { pitch: 19_999, secondary: -3_999, throttle: 1 },
    };
    let bounds = SearchBox::standard();
    match trim(&cost, &bounds, 2024, 100) {
        TrimOutcome::Converged { best, .. } => assert!(in_box(&bounds, best)),
        TrimOutcome::Aborted { .. } => panic!("a total cost cannot abort the search"),
    }
}

// A cost that fails on part of the box stops the search with the best
// estimate found so far instead of aborting the process.
struct PartialCost {
    target: ControlVector,
}

impl CostFunction for PartialCost {
    // ghost half of the trait; never called at runtime
    fn cost_spec(&self, _p: ControlVector) -> Option<i64> {
        None
    }

    fn cost(&self, p: &ControlVector) -> Option<i64> {
        if p.pitch < 0 {
            None
        } else {
            Some(l1_cost(self.target, *p))
        }
    }
}

#[test]
fn failing_cost_reports_an_aborted_outcome() {
    let cost = PartialCost {
        target: ControlVector { pitch: 5_000, secondary: 0, throttle: 500 },
    };
    let bounds = SearchBox::standard();
    match trim(&cost, &bounds, 1, 50) {
        TrimOutcome::Aborted { failed_candidate, best } => {
            assert!(failed_candidate.pitch < 0);
            if let Some((best_pos, best_cost)) = best {
                assert!(best_pos.pitch >= 0);
                assert_eq!(best_cost, l1_cost(cost.target, best_pos));
            }
        },
        TrimOutcome::Converged { .. } => {
            panic!("half the pitch range fails to evaluate, so some draw must hit it")
        },
    }
}
