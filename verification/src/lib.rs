//! A memory-access latency benchmark core: a page-rounded region layout, a
//! deterministic stride-walking cursor, a timed access loop, and an
//! integer-only duration formatter.

pub mod cursor;
pub mod format;
pub mod region;
pub mod runner;
