use txbench::plan::generate_plan;
use txbench::rng::WorkerRng;

const HEX_ALPHABET: &[u8] = b"0123456789ABCDEF";

#[test]
fn same_seed_yields_identical_plans() {
    let mut r1 = WorkerRng::for_worker(7);
    let mut r2 = WorkerRng::for_worker(7);
    let p1 = generate_plan(&mut r1, 3, 2, 1000);
    let p2 = generate_plan(&mut r2, 3, 2, 1000);
    assert_eq!(p1, p2);
    // The streams stay in step: the next plans agree as well.
    let q1 = generate_plan(&mut r1, 5, 4, 123);
    let q2 = generate_plan(&mut r2, 5, 4, 123);
    assert_eq!(q1, q2);
}

#[test]
fn different_workers_yield_different_plans() {
    let mut r1 = WorkerRng::for_worker(0);
    let mut r2 = WorkerRng::for_worker(1);
    let p1 = generate_plan(&mut r1, 2, 1, 1000);
    let p2 = generate_plan(&mut r2, 2, 1, 1000);
    assert_ne!(p1, p2);
}

#[test]
fn plan_has_requested_counts() {
    let mut rng = WorkerRng::for_worker(3);
    let p = generate_plan(&mut rng, 4, 6, 50);
    assert_eq!(p.scans.len(), 4);
    assert_eq!(p.updates.len(), 6);
    let empty = generate_plan(&mut rng, 0, 0, 50);
    assert!(empty.scans.is_empty());
    assert!(empty.updates.is_empty());
}

#[test]
fn scan_keys_are_sixteen_uppercase_hex_chars() {
    let mut rng = WorkerRng::for_worker(11);
    let p = generate_plan(&mut rng, 25, 0, 1);
    for key in &p.scans {
        assert_eq!(key.len(), 16);
        for c in key {
            assert!(HEX_ALPHABET.contains(c));
        }
    }
}

#[test]
fn update_tuples_have_fixed_shape() {
    let mut rng = WorkerRng::for_worker(5);
    let p = generate_plan(&mut rng, 0, 25, 1000);
    for u in &p.updates {
        assert_eq!(u.payload.len(), 200);
        assert_eq!(u.hex.len(), 64);
        for c in &u.hex {
            assert!(HEX_ALPHABET.contains(c));
        }
        assert!(u.row_id < 1000);
    }
}

#[test]
fn row_ids_stay_inside_the_universe_over_many_draws() {
    // Exhaustive sampling over a large trial count: no drawn row id may ever
    // fall outside [0, seed_row_count).
    for seed in 0..20 {
        let mut rng = WorkerRng::for_worker(seed);
        for _ in 0..25 {
            let p = generate_plan(&mut rng, 0, 20, 100);
            for u in &p.updates {
                assert!(u.row_id < 100);
            }
        }
    }
}

#[test]
fn universe_of_one_row_pins_every_row_id() {
    let mut rng = WorkerRng::for_worker(2);
    let p = generate_plan(&mut rng, 0, 30, 1);
    for u in &p.updates {
        assert_eq!(u.row_id, 0);
    }
}

#[test]
fn generator_draws_fresh_randomness() {
    // Successive draws differ: the generator does not hand the same bytes or
    // keys back twice in a row.
    let mut rng = WorkerRng::for_worker(9);
    let p = generate_plan(&mut rng, 2, 2, 1_000_000);
    assert_ne!(p.scans[0], p.scans[1]);
    assert_ne!(p.updates[0].payload, p.updates[1].payload);
    assert_ne!(p.updates[0].hex, p.updates[1].hex);
}
