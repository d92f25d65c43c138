use txbench::config::{ExperimentConfig, IsolationMode};
use txbench::driver::{finish_experiment, keep_running, NOMINAL_DURATION_SECS};
use txbench::executor::WorkerTally;

#[test]
fn throughput_is_integer_division_by_nominal_duration() {
    let cfg = ExperimentConfig {
        thread_count: 4,
        scan_count: 10,
        update_count: 1,
        isolation_mode: IsolationMode::Deferred,
    };
    let tally = WorkerTally { committed: 300, retries: 17 };
    let r = finish_experiment(&cfg, 1_000_000, &tally, NOMINAL_DURATION_SECS);
    assert_eq!(r.throughput_tx_per_sec, 10);
    assert_eq!(r.committed_transactions, 300);
    assert_eq!(r.contention_retries, 17);
    assert_eq!(r.thread_count, 4);
    assert_eq!(r.scan_count, 10);
    assert_eq!(r.update_count, 1);
    assert_eq!(r.seed_row_count, 1_000_000);
    assert_eq!(r.isolation_mode, IsolationMode::Deferred);
}

#[test]
fn throughput_rounds_down() {
    let cfg = ExperimentConfig {
        thread_count: 1,
        scan_count: 0,
        update_count: 1,
        isolation_mode: IsolationMode::Immediate,
    };
    let tally = WorkerTally { committed: 29, retries: 0 };
    let r = finish_experiment(&cfg, 100, &tally, 30);
    assert_eq!(r.throughput_tx_per_sec, 0);
    let tally = WorkerTally { committed: 59, retries: 0 };
    let r = finish_experiment(&cfg, 100, &tally, 30);
    assert_eq!(r.throughput_tx_per_sec, 1);
}

#[test]
fn deadline_check_is_inclusive() {
    assert!(keep_running(0, 5));
    assert!(keep_running(5, 5));
    assert!(!keep_running(6, 5));
}
