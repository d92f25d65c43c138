//! Enumeration of the experiment grid: the cartesian product of the
//! configured thread counts, scan counts and update counts with the three
//! isolation modes, minus the degenerate no-op combinations.

use vstd::prelude::*;

use crate::config::{ExperimentConfig, IsolationMode};

verus! {

/// The grid cell for one combination of parameters.
pub open spec fn cell(t: u64, s: u64, u: u64, m: IsolationMode) -> ExperimentConfig {
    ExperimentConfig { thread_count: t, scan_count: s, update_count: u, isolation_mode: m }
}

/// The three isolation modes scheduled for one (threads, scans, updates)
/// triple, in enumeration order; the no-op triple yields nothing.
pub open spec fn mode_block(t: u64, s: u64, u: u64) -> Seq<ExperimentConfig> {
    if s == 0 && u == 0 {
        Seq::empty()
    } else {
        seq![
            cell(t, s, u, IsolationMode::Deferred),
            cell(t, s, u, IsolationMode::Immediate),
            cell(t, s, u, IsolationMode::Concurrent),
        ]
    }
}

/// The grid cells for one thread count and one scan count, over all update counts.
pub open spec fn grid_over_updates(t: u64, s: u64, us: Seq<u64>) -> Seq<ExperimentConfig>
    decreases us.len(),
{
    if us.len() == 0 {
        Seq::empty()
    } else {
        mode_block(t, s, us.first()) + grid_over_updates(t, s, us.drop_first())
    }
}

/// The grid cells for one thread count, over all scan and update counts.
pub open spec fn grid_over_scans(t: u64, ss: Seq<u64>, us: Seq<u64>) -> Seq<ExperimentConfig>
    decreases ss.len(),
{
    if ss.len() == 0 {
        Seq::empty()
    } else {
        grid_over_updates(t, ss.first(), us) + grid_over_scans(t, ss.drop_first(), us)
    }
}

/// The whole grid, in enumeration order: thread counts outermost, then scan
/// counts, then update counts, then the three isolation modes.
pub open spec fn grid_spec(ts: Seq<u64>, ss: Seq<u64>, us: Seq<u64>) -> Seq<ExperimentConfig>
    decreases ts.len(),
{
    if ts.len() == 0 {
        Seq::empty()
    } else {
        grid_over_scans(ts.first(), ss, us) + grid_spec(ts.drop_first(), ss, us)
    }
}

proof fn lemma_mode_block_does_work(t: u64, s: u64, u: u64)
    ensures
        forall|i: int| 0 <= i < mode_block(t, s, u).len() ==> (#[trigger] mode_block(t, s, u)[i]).does_work(),
{
}

proof fn lemma_grid_over_updates_does_work(t: u64, s: u64, us: Seq<u64>)
    ensures
        forall|i: int|
            0 <= i < grid_over_updates(t, s, us).len() ==> (#[trigger] grid_over_updates(
                t,
                s,
                us,
            )[i]).does_work(),
    decreases us.len(),
{
    if us.len() > 0 {
        lemma_mode_block_does_work(t, s, us.first());
        lemma_grid_over_updates_does_work(t, s, us.drop_first());
        assert forall|i: int| 0 <= i < grid_over_updates(t, s, us).len() implies (
        #[trigger] grid_over_updates(t, s, us)[i]).does_work() by {
            let blk = mode_block(t, s, us.first());
            if i < blk.len() {
                assert(grid_over_updates(t, s, us)[i] == blk[i]);
            } else {
                assert(grid_over_updates(t, s, us)[i] == grid_over_updates(
                    t,
                    s,
                    us.drop_first(),
                )[i - blk.len()]);
            }
        }
    }
}

proof fn lemma_grid_over_scans_does_work(t: u64, ss: Seq<u64>, us: Seq<u64>)
    ensures
        forall|i: int|
            0 <= i < grid_over_scans(t, ss, us).len() ==> (#[trigger] grid_over_scans(
                t,
                ss,
                us,
            )[i]).does_work(),
    decreases ss.len(),
{
    if ss.len() > 0 {
        lemma_grid_over_updates_does_work(t, ss.first(), us);
        lemma_grid_over_scans_does_work(t, ss.drop_first(), us);
        assert forall|i: int| 0 <= i < grid_over_scans(t, ss, us).len() implies (
        #[trigger] grid_over_scans(t, ss, us)[i]).does_work() by {
            let head = grid_over_updates(t, ss.first(), us);
            if i < head.len() {
                assert(grid_over_scans(t, ss, us)[i] == head[i]);
            } else {
                assert(grid_over_scans(t, ss, us)[i] == grid_over_scans(
                    t,
                    ss.drop_first(),
                    us,
                )[i - head.len()]);
            }
        }
    }
}

/// Every scheduled experiment does some work: a combination whose scan count
/// and update count are both zero is excluded from the grid.
pub proof fn lemma_grid_excludes_noop(ts: Seq<u64>, ss: Seq<u64>, us: Seq<u64>)
    ensures
        forall|i: int|
            0 <= i < grid_spec(ts, ss, us).len() ==> (#[trigger] grid_spec(ts, ss, us)[i]).does_work(),
    decreases ts.len(),
{
    if ts.len() > 0 {
        lemma_grid_over_scans_does_work(ts.first(), ss, us);
        lemma_grid_excludes_noop(ts.drop_first(), ss, us);
        assert forall|i: int| 0 <= i < grid_spec(ts, ss, us).len() implies (
        #[trigger] grid_spec(ts, ss, us)[i]).does_work() by {
            let head = grid_over_scans(ts.first(), ss, us);
            if i < head.len() {
                assert(grid_spec(ts, ss, us)[i] == head[i]);
            } else {
                assert(grid_spec(ts, ss, us)[i] == grid_spec(
                    ts.drop_first(),
                    ss,
                    us,
                )[i - head.len()]);
            }
        }
    }
}

/// Enumerate the full experiment grid in a fixed order, excluding the no-op
/// combinations, so that sequential runs are comparable cell by cell.
pub fn build_grid(ts: &Vec<u64>, ss: &Vec<u64>, us: &Vec<u64>) -> (g: Vec<ExperimentConfig>)
    ensures
        g@ == grid_spec(ts@, ss@, us@),
        forall|i: int| 0 <= i < g@.len() ==> (#[trigger] g@[i]).does_work(),
{
    let mut g: Vec<ExperimentConfig> = Vec::new();
    proof {
        assert(ts@.skip(0) =~= ts@);
    }
    let mut a: usize = 0;
    while a < ts.len()
        invariant
            a <= ts.len(),
            g@ + grid_spec(ts@.skip(a as int), ss@, us@) == grid_spec(ts@, ss@, us@),
        decreases ts.len() - a,
    {
        let t = ts[a];
        proof {
            assert(ts@.skip(a as int).first() == t);
            assert(ts@.skip(a as int).drop_first() =~= ts@.skip(a as int + 1));
            assert(grid_spec(ts@.skip(a as int), ss@, us@) == grid_over_scans(t, ss@, us@)
                + grid_spec(ts@.skip(a as int + 1), ss@, us@));
            assert(ss@.skip(0) =~= ss@);
        }
        let ghost scans_total = grid_over_scans(t, ss@, us@);
        let ghost g_before_scans = g@;
        let mut b: usize = 0;
        while b < ss.len()
            invariant
                b <= ss.len(),
                g@ + grid_over_scans(t, ss@.skip(b as int), us@) == g_before_scans + scans_total,
                scans_total == grid_over_scans(t, ss@, us@),
            decreases ss.len() - b,
        {
            let s = ss[b];
            proof {
                assert(ss@.skip(b as int).first() == s);
                assert(ss@.skip(b as int).drop_first() =~= ss@.skip(b as int + 1));
                assert(grid_over_scans(t, ss@.skip(b as int), us@) == grid_over_updates(t, s, us@)
                    + grid_over_scans(t, ss@.skip(b as int + 1), us@));
                assert(us@.skip(0) =~= us@);
            }
            let ghost updates_total = grid_over_updates(t, s, us@);
            let ghost g_before_updates = g@;
            let mut c: usize = 0;
            while c < us.len()
                invariant
                    c <= us.len(),
                    g@ + grid_over_updates(t, s, us@.skip(c as int)) == g_before_updates
                        + updates_total,
                    updates_total == grid_over_updates(t, s, us@),
                decreases us.len() - c,
            {
                let u = us[c];
                proof {
                    assert(us@.skip(c as int).first() == u);
                    assert(us@.skip(c as int).drop_first() =~= us@.skip(c as int + 1));
                    assert(grid_over_updates(t, s, us@.skip(c as int)) == mode_block(t, s, u)
                        + grid_over_updates(t, s, us@.skip(c as int + 1)));
                }
                let ghost g_at_block = g@;
                if !(s == 0 && u == 0) {
                    g.push(ExperimentConfig {
                        thread_count: t,
                        scan_count: s,
                        update_count: u,
                        isolation_mode: IsolationMode::Deferred,
                    });
                    g.push(ExperimentConfig {
                        thread_count: t,
                        scan_count: s,
                        update_count: u,
                        isolation_mode: IsolationMode::Immediate,
                    });
                    g.push(ExperimentConfig {
                        thread_count: t,
                        scan_count: s,
                        update_count: u,
                        isolation_mode: IsolationMode::Concurrent,
                    });
                }
                proof {
                    assert(g@ =~= g_at_block + mode_block(t, s, u));
                    assert(g@ + grid_over_updates(t, s, us@.skip(c as int + 1)) =~= g_at_block
                        + grid_over_updates(t, s, us@.skip(c as int)));
                }
                c = c + 1;
            }
            proof {
                assert(us@.skip(us@.len() as int) =~= Seq::<u64>::empty());
                assert(g@ + grid_over_updates(t, s, us@.skip(us@.len() as int)) =~= g@);
                assert(g@ + grid_over_scans(t, ss@.skip(b as int + 1), us@) =~= (g_before_updates
                    + grid_over_updates(t, s, us@)) + grid_over_scans(t, ss@.skip(b as int + 1), us@));
                assert((g_before_updates + grid_over_updates(t, s, us@)) + grid_over_scans(
                    t,
                    ss@.skip(b as int + 1),
                    us@,
                ) =~= g_before_updates + grid_over_scans(t, ss@.skip(b as int), us@));
            }
            b = b + 1;
        }
        proof {
            assert(ss@.skip(ss@.len() as int) =~= Seq::<u64>::empty());
            assert(g@ + grid_over_scans(t, ss@.skip(ss@.len() as int), us@) =~= g@);
            assert(g@ + grid_spec(ts@.skip(a as int + 1), ss@, us@) =~= (g_before_scans
                + grid_over_scans(t, ss@, us@)) + grid_spec(ts@.skip(a as int + 1), ss@, us@));
            assert((g_before_scans + grid_over_scans(t, ss@, us@)) + grid_spec(
                ts@.skip(a as int + 1),
                ss@,
                us@,
            ) =~= g_before_scans + grid_spec(ts@.skip(a as int), ss@, us@));
        }
        a = a + 1;
    }
    proof {
        assert(ts@.skip(ts@.len() as int) =~= Seq::<u64>::empty());
        assert(g@ + grid_spec(ts@.skip(ts@.len() as int), ss@, us@) =~= g@);
        lemma_grid_excludes_noop(ts@, ss@, us@);
    }
    g
}

} // verus!
