//! Synthetic CPU and memory workloads whose numeric results are specified
//! and proved: the naive recursive Fibonacci term, its sum over a range
//! (sequential and data-parallel), and a sequential buffer fill.
pub mod memory;
pub mod parallel;
pub mod suite;
pub mod workload;
