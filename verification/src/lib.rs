//! A reproducible benchmark protocol for three key-value strategies: a hash
//! table, an ordered tree map and a sorted array searched by bisection.
//!
//! The crate holds the protocol itself: how a run is configured, how the
//! workload is derived from a seed, how the resident-memory peak is tracked,
//! and what each strategy holds after every phase. Printing, process exit
//! codes and subprocess isolation are left to the caller.

pub mod benches;
pub mod cli;
pub mod config;
pub mod data;
pub mod mem;
pub mod number;
pub mod timing;
