use txbench::config::IsolationMode;
use txbench::executor::{attempt_script, record, Decision, StoreAction, StoreSignal, WorkerTally};
use txbench::plan::generate_plan;
use txbench::rng::WorkerRng;

#[test]
fn commit_counts_once_and_finishes() {
    let mut tally = WorkerTally::new();
    let d = record(&mut tally, StoreSignal::Committed);
    assert_eq!(d, Decision::Finish);
    assert_eq!(tally.committed, 1);
    assert_eq!(tally.retries, 0);
}

#[test]
fn busy_counts_one_retry_and_repeats() {
    let mut tally = WorkerTally::new();
    let d = record(&mut tally, StoreSignal::Busy);
    assert_eq!(d, Decision::Retry);
    assert_eq!(tally.committed, 0);
    assert_eq!(tally.retries, 1);
}

#[test]
fn fatal_counts_nothing_and_aborts() {
    let mut tally = WorkerTally::new();
    let d = record(&mut tally, StoreSignal::Fatal);
    assert_eq!(d, Decision::Abort);
    assert_eq!(tally.committed, 0);
    assert_eq!(tally.retries, 0);
}

#[test]
fn counters_accumulate_over_a_run() {
    let mut tally = WorkerTally::new();
    record(&mut tally, StoreSignal::Busy);
    record(&mut tally, StoreSignal::Busy);
    record(&mut tally, StoreSignal::Committed);
    record(&mut tally, StoreSignal::Committed);
    record(&mut tally, StoreSignal::Busy);
    record(&mut tally, StoreSignal::Committed);
    assert_eq!(tally.committed, 3);
    assert_eq!(tally.retries, 3);
}

#[test]
fn script_runs_begin_scans_updates_commit_in_order() {
    let mut rng = WorkerRng::for_worker(1);
    let plan = generate_plan(&mut rng, 2, 1, 10);
    let script = attempt_script(IsolationMode::Deferred, &plan);
    assert_eq!(
        script,
        vec![
            StoreAction::BeginTxn(IsolationMode::Deferred),
            StoreAction::ScanTopTen(0),
            StoreAction::ScanTopTen(1),
            StoreAction::UpdateRow(0),
            StoreAction::Commit,
        ]
    );
}

#[test]
fn script_of_scan_only_plan_has_no_updates() {
    let mut rng = WorkerRng::for_worker(1);
    let plan = generate_plan(&mut rng, 1, 0, 10);
    let script = attempt_script(IsolationMode::Concurrent, &plan);
    assert_eq!(
        script,
        vec![
            StoreAction::BeginTxn(IsolationMode::Concurrent),
            StoreAction::ScanTopTen(0),
            StoreAction::Commit,
        ]
    );
}

#[test]
fn retried_attempts_run_the_same_script() {
    let mut rng = WorkerRng::for_worker(4);
    let plan = generate_plan(&mut rng, 3, 3, 100);
    let first = attempt_script(IsolationMode::Immediate, &plan);
    let again = attempt_script(IsolationMode::Immediate, &plan);
    assert_eq!(first, again);
}
