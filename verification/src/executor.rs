//! The contention-retry transaction executor's decisions and accounting.
//!
//! One logical transaction is attempted against the store until it commits:
//! a contended ("busy") attempt is counted as a retry and repeated with the
//! same plan, a committed attempt is counted and finishes the transaction,
//! and any other failure aborts the whole run. The store work itself is the
//! surrounding program's; the decision taken after each attempt, the order of
//! the attempt's steps, and the counter accounting are verified here.

use vstd::prelude::*;

use crate::config::IsolationMode;
use crate::plan::TransactionPlan;

verus! {

/// The classified outcome of one attempt to run a transaction.
#[derive(Clone, Copy, Debug, PartialEq, Eq, Structural)]
pub enum StoreSignal {
    /// The attempt committed.
    Committed,
    /// The store reported the busy/contended condition: the only expected,
    /// transient failure.
    Busy,
    /// Any other failure: it invalidates the measurement.
    Fatal,
}

/// What the worker must do after one attempt.
#[derive(Clone, Copy, Debug, PartialEq, Eq, Structural)]
pub enum Decision {
    /// The transaction is done; move on to the next plan.
    Finish,
    /// Contended: repeat the attempt at once, with the same plan, without
    /// backoff and without a retry limit.
    Retry,
    /// Unexpected failure: abort the whole run, with no partial result.
    Abort,
}

/// The decision an attempt's outcome dictates.
pub open spec fn decision_of(s: StoreSignal) -> Decision {
    match s {
        StoreSignal::Committed => Decision::Finish,
        StoreSignal::Busy => Decision::Retry,
        StoreSignal::Fatal => Decision::Abort,
    }
}

/// The counters one experiment run accumulates over all its workers.
#[derive(Clone, Copy, Debug, PartialEq, Eq, Structural)]
pub struct WorkerTally {
    pub committed: u64,
    pub retries: u64,
}

/// How one attempt's outcome changes the counters: a commit counts once, a
/// contended attempt counts one retry, and a fatal outcome counts nothing.
pub open spec fn apply_signal(t: WorkerTally, s: StoreSignal) -> WorkerTally {
    match s {
        StoreSignal::Committed => WorkerTally { committed: (t.committed + 1) as u64, ..t },
        StoreSignal::Busy => WorkerTally { retries: (t.retries + 1) as u64, ..t },
        StoreSignal::Fatal => t,
    }
}

impl WorkerTally {
    /// The counters of a run that has not completed any attempt.
    pub fn new() -> (t: WorkerTally)
        ensures
            t.committed == 0,
            t.retries == 0,
    {
        WorkerTally { committed: 0, retries: 0 }
    }
}

/// Resolve one attempt: count it and say what the worker must do next.
pub fn record(tally: &mut WorkerTally, signal: StoreSignal) -> (d: Decision)
    requires
        old(tally).committed < u64::MAX,
        old(tally).retries < u64::MAX,
    ensures
        *final(tally) == apply_signal(*old(tally), signal),
        d == decision_of(signal),
{
    match signal {
        StoreSignal::Committed => {
            tally.committed = tally.committed + 1;
            Decision::Finish
        },
        StoreSignal::Busy => {
            tally.retries = tally.retries + 1;
            Decision::Retry
        },
        StoreSignal::Fatal => Decision::Abort,
    }
}

/// The counters after a sequence of attempt outcomes, in order.
pub open spec fn apply_signals(t: WorkerTally, ss: Seq<StoreSignal>) -> WorkerTally
    decreases ss.len(),
{
    if ss.len() == 0 {
        t
    } else {
        apply_signals(apply_signal(t, ss.first()), ss.drop_first())
    }
}

/// How many outcomes of a sequence were contended.
pub open spec fn count_busy(ss: Seq<StoreSignal>) -> nat
    decreases ss.len(),
{
    if ss.len() == 0 {
        0
    } else {
        (if ss.first() == StoreSignal::Busy {
            1nat
        } else {
            0nat
        }) + count_busy(ss.drop_first())
    }
}

/// How many outcomes of a sequence committed.
pub open spec fn count_committed(ss: Seq<StoreSignal>) -> nat
    decreases ss.len(),
{
    if ss.len() == 0 {
        0
    } else {
        (if ss.first() == StoreSignal::Committed {
            1nat
        } else {
            0nat
        }) + count_committed(ss.drop_first())
    }
}

/// The counters account exactly for what happened: over any sequence of
/// attempt outcomes the retry counter grows by the number of contended
/// attempts and the commit counter by the number of committed ones, as long
/// as neither counter wraps.
pub proof fn lemma_tally_accounting(t: WorkerTally, ss: Seq<StoreSignal>)
    requires
        t.committed + count_committed(ss) <= u64::MAX,
        t.retries + count_busy(ss) <= u64::MAX,
    ensures
        apply_signals(t, ss).committed == t.committed + count_committed(ss),
        apply_signals(t, ss).retries == t.retries + count_busy(ss),
    decreases ss.len(),
{
    if ss.len() > 0 {
        lemma_tally_accounting(apply_signal(t, ss.first()), ss.drop_first());
    }
}

/// A run that never saw the busy/contended signal reports no retries: with a
/// single worker there is nothing to contend with, so its retry counter stays
/// exactly where it started.
pub proof fn lemma_no_contention_no_retries(t: WorkerTally, ss: Seq<StoreSignal>)
    requires
        count_busy(ss) == 0,
    ensures
        apply_signals(t, ss).retries == t.retries,
    decreases ss.len(),
{
    if ss.len() > 0 {
        lemma_no_contention_no_retries(apply_signal(t, ss.first()), ss.drop_first());
    }
}

/// The retry counter never decreases, whatever outcomes arrive, as long as it
/// does not wrap.
pub proof fn lemma_retries_monotone(t: WorkerTally, ss: Seq<StoreSignal>)
    requires
        t.retries + count_busy(ss) <= u64::MAX,
    ensures
        apply_signals(t, ss).retries >= t.retries,
    decreases ss.len(),
{
    if ss.len() > 0 {
        lemma_retries_monotone(apply_signal(t, ss.first()), ss.drop_first());
    }
}

/// One instruction of a transaction attempt, in the order the store must see
/// it. Scan and update instructions name the plan entry they carry out.
#[derive(Clone, Copy, Debug, PartialEq, Eq, Structural)]
pub enum StoreAction {
    /// Begin a transaction under the given isolation mode.
    BeginTxn(IsolationMode),
    /// Issue the bounded range read for the scan key at this index of the
    /// plan and consume its rows.
    ScanTopTen(usize),
    /// Issue the point update for the update tuple at this index of the plan.
    UpdateRow(usize),
    /// Commit the transaction.
    Commit,
}

/// The script of one attempt: begin, all scans in plan order, all updates in
/// plan order, commit.
pub open spec fn script_spec(mode: IsolationMode, scan_count: nat, update_count: nat) -> Seq<
    StoreAction,
> {
    seq![StoreAction::BeginTxn(mode)] + Seq::new(scan_count, |i: int| StoreAction::ScanTopTen(i as usize))
        + Seq::new(update_count, |i: int| StoreAction::UpdateRow(i as usize)) + seq![
        StoreAction::Commit,
    ]
}

/// Lay out one attempt of a plan as the exact sequence of store instructions:
/// begin first, then every scan in order, then every update in order, then
/// the commit. Every attempt of the same plan runs this same script.
pub fn attempt_script(mode: IsolationMode, plan: &TransactionPlan) -> (acts: Vec<StoreAction>)
    ensures
        acts@ == script_spec(mode, plan.scans@.len(), plan.updates@.len()),
{
    let mut acts: Vec<StoreAction> = Vec::new();
    acts.push(StoreAction::BeginTxn(mode));
    let mut i: usize = 0;
    while i < plan.scans.len()
        invariant
            i <= plan.scans@.len(),
            acts@.len() == 1 + i,
            acts@[0] == StoreAction::BeginTxn(mode),
            forall|k: int| 0 <= k < i ==> #[trigger] acts@[1 + k] == StoreAction::ScanTopTen(k as usize),
        decreases plan.scans@.len() - i,
    {
        acts.push(StoreAction::ScanTopTen(i));
        i = i + 1;
    }
    let ghost n_scans = plan.scans@.len();
    let mut j: usize = 0;
    while j < plan.updates.len()
        invariant
            j <= plan.updates@.len(),
            n_scans == plan.scans@.len(),
            acts@.len() == 1 + n_scans + j,
            acts@[0] == StoreAction::BeginTxn(mode),
            forall|k: int| 0 <= k < n_scans ==> #[trigger] acts@[1 + k] == StoreAction::ScanTopTen(k as usize),
            forall|k: int| 0 <= k < j ==> #[trigger] acts@[1 + n_scans + k] == StoreAction::UpdateRow(k as usize),
        decreases plan.updates@.len() - j,
    {
        acts.push(StoreAction::UpdateRow(j));
        j = j + 1;
    }
    let ghost pre = acts@;
    acts.push(StoreAction::Commit);
    proof {
        let n = plan.scans@.len() as int;
        let m = plan.updates@.len() as int;
        let sp = script_spec(mode, plan.scans@.len(), plan.updates@.len());
        assert(sp.len() == 2 + n + m);
        assert forall|x: int| 0 <= x < acts@.len() implies acts@[x] == sp[x] by {
            if x < 1 + n + m {
                assert(acts@[x] == pre[x]);
                if x == 0 {
                    assert(sp[x] == StoreAction::BeginTxn(mode));
                } else if x < 1 + n {
                    assert(pre[1 + (x - 1)] == StoreAction::ScanTopTen((x - 1) as usize));
                    assert(sp[x] == StoreAction::ScanTopTen((x - 1) as usize));
                } else {
                    assert(pre[1 + n + (x - 1 - n)] == StoreAction::UpdateRow((x - 1 - n) as usize));
                    assert(sp[x] == StoreAction::UpdateRow((x - 1 - n) as usize));
                }
            } else {
                assert(acts@[x] == StoreAction::Commit);
                assert(sp[x] == StoreAction::Commit);
            }
        }
        assert(acts@ =~= sp);
    }
    acts
}

} // verus!
