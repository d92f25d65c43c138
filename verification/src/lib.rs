//! A benchmark core for measuring transactional throughput and contention of
//! an embedded store under a grid of workload shapes.
//!
//! The verified library holds the experiment-grid enumeration, the randomized
//! per-transaction workload generation, the contention-retry accounting of the
//! transaction executor, and the per-run result and throughput computation.
//! Opening connections, running SQL, spawning worker threads and writing the
//! result file are left to the surrounding program.

pub mod config;
pub mod driver;
pub mod executor;
pub mod grid;
pub mod plan;
pub mod rng;
