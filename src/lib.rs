//! Throughput measurement of a byte stream: an event-driven aggregator that
//! turns byte counts and report ticks into rate samples, a formatter that
//! renders a rate with a scaled unit, the shutdown policy of a measurement
//! session, the route table of the synthetic stream server, and the
//! validation of the configuration.

pub mod text;
pub mod rate;
pub mod aggregator;
pub mod session;
pub mod server;
pub mod config;
