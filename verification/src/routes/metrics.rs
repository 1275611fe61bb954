//! The endpoints of the metrics API.

pub mod distribution;
pub mod get_metrics;
pub mod series;
pub mod tags;
