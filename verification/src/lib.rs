//! Throughput analytics for a single network interface: rate derivation from
//! cumulative byte counters, a bounded window of recent samples, and hourly
//! summaries, all with machine-checked contracts.

pub mod analytics;
pub mod clock;
pub mod counters;
pub mod interface;
pub mod laws;
pub mod rate;
pub mod sample;
pub mod storage;
pub mod text;
pub mod units;
pub mod window;
