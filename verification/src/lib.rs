//! Core of an HTTP load-generation engine: a fixed volume of requests is
//! spread over a set of workers, each keeping a bounded window of requests
//! in flight; completed requests are classified, collected into a latency
//! series, and summarised as percentile and average statistics, with a
//! cooperative fail-fast abort that surfaces the first fatal error.
//!
//! The transport itself (HTTP, TLS, QUIC) is an external capability: the
//! modules here hold the decisions and the arithmetic, stated and proved.

pub mod collector;
pub mod config;
pub mod distributor;
pub mod outcome;
pub mod report;
pub mod stats;
pub mod worker;
