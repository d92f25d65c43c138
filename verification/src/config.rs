//! The shape of one experiment and the record of its outcome.

use vstd::prelude::*;

verus! {

/// The concurrency-control mode a transaction requests from the store.
#[derive(Clone, Copy, Debug, PartialEq, Eq, Structural)]
pub enum IsolationMode {
    Deferred,
    Immediate,
    Concurrent,
}

/// One cell of the experiment grid: how many workers to run and how many
/// scans and updates each transaction performs, under which isolation mode.
#[derive(Clone, Copy, Debug, PartialEq, Eq, Structural)]
pub struct ExperimentConfig {
    pub thread_count: u64,
    pub scan_count: u64,
    pub update_count: u64,
    pub isolation_mode: IsolationMode,
}

impl ExperimentConfig {
    /// A scheduled experiment always does some work per transaction: a
    /// combination with neither scans nor updates is never scheduled.
    pub open spec fn does_work(self) -> bool {
        self.scan_count > 0 || self.update_count > 0
    }
}

/// One finished experiment: its configuration, the size of the seeded row-id
/// universe, and the counters measured over the run.
#[derive(Clone, Copy, Debug, PartialEq, Eq, Structural)]
pub struct ExperimentResult {
    pub isolation_mode: IsolationMode,
    pub thread_count: u64,
    pub scan_count: u64,
    pub update_count: u64,
    pub seed_row_count: u64,
    pub contention_retries: u64,
    pub committed_transactions: u64,
    pub throughput_tx_per_sec: u64,
}

} // verus!
