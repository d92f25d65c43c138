use txbench::config::{ExperimentConfig, IsolationMode};
use txbench::grid::build_grid;

#[test]
fn grid_is_full_cartesian_product_minus_noop() {
    let g = build_grid(&vec![1, 2], &vec![0, 10], &vec![0, 1]);
    // 2 threads x 2 scans x 2 updates x 3 modes = 24 cells, minus the two
    // all-zero-work triples (one per thread count) worth 3 modes each.
    assert_eq!(g.len(), 18);
    for cfg in &g {
        assert!(cfg.scan_count > 0 || cfg.update_count > 0);
    }
}

#[test]
fn grid_enumeration_order_is_fixed() {
    let g = build_grid(&vec![1], &vec![0, 10], &vec![0, 1]);
    assert_eq!(g.len(), 9);
    assert_eq!(
        g[0],
        ExperimentConfig {
            thread_count: 1,
            scan_count: 0,
            update_count: 1,
            isolation_mode: IsolationMode::Deferred,
        }
    );
    assert_eq!(
        g[1],
        ExperimentConfig {
            thread_count: 1,
            scan_count: 0,
            update_count: 1,
            isolation_mode: IsolationMode::Immediate,
        }
    );
    assert_eq!(
        g[2],
        ExperimentConfig {
            thread_count: 1,
            scan_count: 0,
            update_count: 1,
            isolation_mode: IsolationMode::Concurrent,
        }
    );
    assert_eq!(
        g[3],
        ExperimentConfig {
            thread_count: 1,
            scan_count: 10,
            update_count: 0,
            isolation_mode: IsolationMode::Deferred,
        }
    );
    assert_eq!(
        g[8],
        ExperimentConfig {
            thread_count: 1,
            scan_count: 10,
            update_count: 1,
            isolation_mode: IsolationMode::Concurrent,
        }
    );
}

#[test]
fn grid_of_only_noop_is_empty() {
    let g = build_grid(&vec![1, 2, 4, 8], &vec![0], &vec![0]);
    assert!(g.is_empty());
}

#[test]
fn grid_of_empty_axis_is_empty() {
    assert!(build_grid(&vec![], &vec![0, 10], &vec![0, 1]).is_empty());
    assert!(build_grid(&vec![1], &vec![], &vec![0, 1]).is_empty());
    assert!(build_grid(&vec![1], &vec![0, 10], &vec![]).is_empty());
}
