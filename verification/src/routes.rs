//! The endpoint descriptors, grouped by the part of the API they address.

pub mod metrics;
