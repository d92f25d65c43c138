//! The concurrent workload driver's verifiable decisions: the soft-deadline
//! policy each worker loops on, and the folding of one run's counters into an
//! immutable result record with its throughput figure.
//!
//! The threads themselves, the per-worker store connections and the join are
//! the surrounding program's: it launches `thread_count` workers, lets each
//! loop while `keep_running` says so, and hands the final counters here.

use vstd::prelude::*;

use crate::config::{ExperimentConfig, ExperimentResult};
use crate::executor::WorkerTally;

verus! {

/// The nominal wall-clock duration of one experiment run, in seconds. The
/// throughput divisor is this nominal figure, not a per-worker measurement,
/// so runs stay comparable.
pub const NOMINAL_DURATION_SECS: u64 = 30;

/// The soft-deadline policy: a worker starts another transaction only while
/// the clock has not passed the deadline. The check happens only here, at the
/// top of the per-transaction loop, so a worker may finish one transaction
/// past the deadline; that skew is accepted by design.
pub fn keep_running(now_millis: u64, deadline_millis: u64) -> (b: bool)
    ensures
        b == (now_millis <= deadline_millis),
{
    now_millis <= deadline_millis
}

/// The result record of one run: the configuration it ran, the row-id
/// universe it ran against, the counters it measured, and the throughput as
/// committed transactions per nominal second, in integer division.
pub open spec fn result_spec(
    cfg: ExperimentConfig,
    seed_row_count: u64,
    tally: WorkerTally,
    duration_secs: u64,
) -> ExperimentResult
    recommends
        duration_secs >= 1,
{
    ExperimentResult {
        isolation_mode: cfg.isolation_mode,
        thread_count: cfg.thread_count,
        scan_count: cfg.scan_count,
        update_count: cfg.update_count,
        seed_row_count: seed_row_count,
        contention_retries: tally.retries,
        committed_transactions: tally.committed,
        throughput_tx_per_sec: (tally.committed as int / duration_secs as int) as u64,
    }
}

/// Fold one finished experiment into its immutable result record, after all
/// workers have joined and the counters are final.
pub fn finish_experiment(
    cfg: &ExperimentConfig,
    seed_row_count: u64,
    tally: &WorkerTally,
    duration_secs: u64,
) -> (r: ExperimentResult)
    requires
        duration_secs >= 1,
    ensures
        r == result_spec(*cfg, seed_row_count, *tally, duration_secs),
{
    ExperimentResult {
        isolation_mode: cfg.isolation_mode,
        thread_count: cfg.thread_count,
        scan_count: cfg.scan_count,
        update_count: cfg.update_count,
        seed_row_count: seed_row_count,
        contention_retries: tally.retries,
        committed_transactions: tally.committed,
        throughput_tx_per_sec: tally.committed / duration_secs,
    }
}

/// Every completed run reports non-negative counters, and its throughput is
/// exactly the committed-transaction count divided by the nominal duration in
/// integer division.
pub proof fn lemma_result_accounting(
    cfg: ExperimentConfig,
    seed_row_count: u64,
    tally: WorkerTally,
    duration_secs: u64,
)
    requires
        duration_secs >= 1,
    ensures
        result_spec(cfg, seed_row_count, tally, duration_secs).contention_retries >= 0,
        result_spec(cfg, seed_row_count, tally, duration_secs).committed_transactions >= 0,
        result_spec(cfg, seed_row_count, tally, duration_secs).throughput_tx_per_sec
            == tally.committed as int / duration_secs as int,
{
}

} // verus!
