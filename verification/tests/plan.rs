use option_pricer::error::PricingError;
use option_pricer::plan::{plan_parallel_simulation, plan_serial, plan_simulation};

#[test]
fn truncates_remainder_paths() {
    // 10 requested paths over 4 workers: 2 per worker, 8 executed, 2 dropped.
    let plan = plan_simulation(10, 4);
    assert_eq!(plan.workers, 4);
    assert_eq!(plan.paths_per_worker, 2);
    assert_eq!(plan.executed_paths(), 8);
}

#[test]
fn divisible_path_count_runs_fully() {
    let plan = plan_simulation(100, 4);
    assert_eq!(plan.paths_per_worker, 25);
    assert_eq!(plan.executed_paths(), 100);
}

#[test]
fn single_worker_runs_all_paths() {
    let plan = plan_simulation(7, 1);
    assert_eq!(plan.workers, 1);
    assert_eq!(plan.paths_per_worker, 7);
    assert_eq!(plan.executed_paths(), 7);
}

#[test]
fn fewer_paths_than_workers_runs_none() {
    let plan = plan_simulation(3, 8);
    assert_eq!(plan.paths_per_worker, 0);
    assert_eq!(plan.executed_paths(), 0);
}

#[test]
fn zero_paths_requested_runs_none() {
    let plan = plan_simulation(0, 4);
    assert_eq!(plan.paths_per_worker, 0);
    assert_eq!(plan.executed_paths(), 0);
}

#[test]
fn serial_plan_runs_requested_count() {
    let plan = plan_serial(5);
    assert_eq!(plan.workers, 1);
    assert_eq!(plan.paths_per_worker, 5);
    assert_eq!(plan.executed_paths(), 5);
}

#[test]
fn parallel_plan_without_host_report_fails() {
    let result = plan_parallel_simulation(10, None);
    assert_eq!(result, Err(PricingError::ParallelismUnavailable));
}

#[test]
fn parallel_plan_with_zero_workers_fails() {
    let result = plan_parallel_simulation(10, Some(0));
    assert_eq!(result, Err(PricingError::ParallelismUnavailable));
}

#[test]
fn parallel_plan_with_reported_workers() {
    let plan = plan_parallel_simulation(10, Some(4)).unwrap();
    assert_eq!(plan.workers, 4);
    assert_eq!(plan.paths_per_worker, 2);
    assert_eq!(plan.executed_paths(), 8);
}
