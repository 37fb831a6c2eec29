//! A single-run sandboxed execution supervisor, as used by automated
//! judges: an untrusted program is run once under operating-system
//! resource limits, and the way it terminated is classified into a
//! verdict, reported together with its measured CPU time and peak memory.

pub mod config;
pub mod judge;
pub mod numbers;
pub mod runner;
pub mod verdict;
