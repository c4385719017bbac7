use conservation_verify::{
    balance_checked_runs, conservation_outcomes, default_scales, interaction_total, population_sizes, split_interactions, sweep_scales, AgentRole, BaselineLaw,
    ScaleResult, VerificationSummary, DEFAULT_STEPS,
};

// ─── Types Tests ───────────────────────────────────────────

#[test]
fn test_agent_role_all_returns_three() {
    assert_eq!(AgentRole::all().len(), 3);
}

#[test]
fn test_agent_role_names() {
    assert_eq!(AgentRole::Initiator.name(), "Initiator");
    assert_eq!(AgentRole::Responder.name(), "Responder");
    assert_eq!(AgentRole::Mediator.name(), "Mediator");
}

#[test]
fn test_verification_summary_new() {
    let s: VerificationSummary<(), (), ()> = VerificationSummary::new();
    assert_eq!(s.total_tests, 0);
    assert_eq!(s.passed, 0);
    assert_eq!(s.failed, 0);
    assert!(s.all_passed());
}

#[test]
fn test_verification_summary_with_failures() {
    let mut s: VerificationSummary<(), (), ()> = VerificationSummary::new();
    s.total_tests = 3;
    s.passed = 2;
    s.failed = 1;
    assert!(!s.all_passed());
}

// ─── Regression Test Tests ────────────────────────────────

#[test]
fn test_baseline_law_all_returns_five() {
    assert_eq!(BaselineLaw::all().len(), 5);
}

#[test]
fn test_baseline_law_names_distinct() {
    let names: Vec<&str> = BaselineLaw::all().iter().map(|l| l.name()).collect();
    for i in 0..names.len() {
        for j in (i + 1)..names.len() {
            assert_ne!(names[i], names[j], "Law names should be distinct");
        }
    }
}

// ─── Roles and laws ───────────────────────────────────────

#[test]
fn agent_roles_come_in_fixed_order() {
    assert_eq!(
        AgentRole::all(),
        &[AgentRole::Initiator, AgentRole::Responder, AgentRole::Mediator]
    );
}

#[test]
fn agent_role_names_distinct() {
    let roles = AgentRole::all();
    for i in 0..roles.len() {
        for j in (i + 1)..roles.len() {
            assert_ne!(roles[i], roles[j]);
            assert_ne!(roles[i].name(), roles[j].name());
        }
    }
}

#[test]
fn baseline_laws_come_in_fixed_order_with_names() {
    let laws = BaselineLaw::all();
    assert_eq!(laws[0], BaselineLaw::InteractionConservation);
    assert_eq!(laws[4], BaselineLaw::MetricBounds);
    let names: Vec<&str> = laws.iter().map(|l| l.name()).collect();
    assert_eq!(
        names,
        vec![
            "InteractionConservation",
            "RoleBalance",
            "AvoidanceSymmetry",
            "ConvergenceScaling",
            "MetricBounds"
        ]
    );
}

// ─── Interaction split ────────────────────────────────────

#[test]
fn split_interactions_sums_to_population_times_steps() {
    let counts = split_interactions(100, 1000);
    assert_eq!(counts, [33333, 33333, 33334]);
    assert_eq!(counts.iter().sum::<u64>(), 100 * 1000);
}

#[test]
fn split_interactions_gives_remainder_to_mediator() {
    assert_eq!(split_interactions(10, 1), [3, 3, 4]);
    assert_eq!(split_interactions(11, 1), [3, 3, 5]);
    assert_eq!(split_interactions(9, 1), [3, 3, 3]);
}

#[test]
fn split_interactions_of_nothing_is_empty() {
    assert_eq!(split_interactions(0, 1000), [0, 0, 0]);
    assert_eq!(split_interactions(100, 0), [0, 0, 0]);
}

#[test]
fn split_interactions_largest_total() {
    let counts = split_interactions(1, u64::MAX);
    assert_eq!(counts[0], u64::MAX / 3);
    assert_eq!(counts[0] as u128 + counts[1] as u128 + counts[2] as u128, u64::MAX as u128);
}

#[test]
fn interaction_total_adds_counts() {
    assert_eq!(interaction_total(&[1, 2, 3]), Some(6));
    assert_eq!(interaction_total(&[0, 0, 0]), Some(0));
    assert_eq!(interaction_total(&split_interactions(100, 1000)), Some(100_000));
}

#[test]
fn interaction_total_overflow_is_none() {
    assert_eq!(interaction_total(&[u64::MAX, 1, 0]), None);
    assert_eq!(interaction_total(&[u64::MAX - 1, 1, 1]), None);
    assert_eq!(interaction_total(&[u64::MAX - 2, 1, 1]), Some(u64::MAX));
}

// ─── Summary tally ────────────────────────────────────────

#[test]
fn record_outcomes_counts_passes_and_failures() {
    let mut s: VerificationSummary<(), (), ()> = VerificationSummary::new();
    s.record_outcomes(&[true, false, true, true]);
    assert_eq!(s.total_tests, 4);
    assert_eq!(s.passed, 3);
    assert_eq!(s.failed, 1);
    assert!(!s.all_passed());
    s.record_outcomes(&[]);
    assert_eq!(s.total_tests, 4);
    s.record_outcomes(&[false]);
    assert_eq!((s.total_tests, s.passed, s.failed), (5, 3, 2));
}

#[test]
fn from_outcomes_counts_every_result() {
    let s: VerificationSummary<u32, &str, char> = VerificationSummary::from_outcomes(
        vec![10, 50, 100],
        &[true, true, true],
        vec!["a", "b"],
        &[true, true],
        vec!['x', 'y', 'z'],
        &[true, false, true],
    );
    assert_eq!(s.total_tests, 8);
    assert_eq!(s.passed, 7);
    assert_eq!(s.failed, 1);
    assert!(!s.all_passed());
    assert_eq!(s.scale_results, vec![10, 50, 100]);
    assert_eq!(s.invariant_results, vec!["a", "b"]);
    assert_eq!(s.regression_results, vec!['x', 'y', 'z']);
}

#[test]
fn from_outcomes_all_passed_when_every_result_passed() {
    let s: VerificationSummary<(), (), ()> = VerificationSummary::from_outcomes(
        vec![(), ()],
        &[true, true],
        vec![()],
        &[true],
        vec![],
        &[],
    );
    assert_eq!((s.total_tests, s.passed, s.failed), (3, 3, 0));
    assert!(s.all_passed());
}

// ─── Scale sweep ──────────────────────────────────────────

#[test]
fn sweep_scales_runs_all_scales_in_order() {
    let scales = vec![10, 50, 100];
    let results = sweep_scales(&scales, 1000, |pop, steps| (pop as u64 * steps, pop < 60));
    assert_eq!(results.len(), 3);
    assert_eq!(results[0].population_size, 10);
    assert_eq!(results[1].population_size, 50);
    assert_eq!(results[2].population_size, 100);
    assert_eq!(results[2].metrics, 100_000);
    assert!(results[0].conservation_holds);
    assert!(!results[2].conservation_holds);
    assert!(results.iter().all(|r| r.elapsed_us == 0));
    assert_eq!(population_sizes(&results), scales);
}

#[test]
fn sweep_scales_of_no_scale_is_empty() {
    let results = sweep_scales(&[], 10, |pop, _| (pop, true));
    assert!(results.is_empty());
    assert!(population_sizes(&results).is_empty());
}

#[test]
fn population_sizes_reads_each_result() {
    let results = vec![
        ScaleResult { population_size: 5000, metrics: (), conservation_holds: true, elapsed_us: 7 },
        ScaleResult { population_size: 10, metrics: (), conservation_holds: false, elapsed_us: 0 },
    ];
    assert_eq!(population_sizes(&results), vec![5000, 10]);
}

#[test]
fn default_sweep_settings() {
    assert_eq!(default_scales(), vec![10, 50, 100, 500, 1000, 5000]);
    assert_eq!(DEFAULT_STEPS, 10_000);
}

#[test]
fn balance_checked_runs_selects_positive_totals_in_order() {
    assert_eq!(
        balance_checked_runs(&[[0, 0, 0], [1, 0, 0], [0, 0, 0], [3, 3, 4]]),
        Some(vec![1, 3])
    );
    assert_eq!(balance_checked_runs(&[]), Some(vec![]));
    assert_eq!(balance_checked_runs(&[[0, 0, 0]]), Some(vec![]));
}

#[test]
fn balance_checked_runs_overflow_is_none() {
    assert_eq!(balance_checked_runs(&[[1, 1, 1], [u64::MAX, 1, 0]]), None);
}

#[test]
fn conservation_outcomes_reads_each_flag() {
    let results = sweep_scales(&[10, 50, 100], 1, |pop, _| ((), pop != 50));
    assert_eq!(conservation_outcomes(&results), vec![true, false, true]);
}

#[test]
fn from_results_counts_scales_by_conservation() {
    let results = sweep_scales(&[10, 50, 100], 1, |pop, _| (pop, pop != 50));
    let s: VerificationSummary<ScaleResult<usize>, (), ()> =
        VerificationSummary::from_results(results, vec![(), ()], &[true, true], vec![()], &[true]);
    assert_eq!((s.total_tests, s.passed, s.failed), (6, 5, 1));
    assert!(!s.all_passed());
    assert_eq!(population_sizes(&s.scale_results), vec![10, 50, 100]);
}
