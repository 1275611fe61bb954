//! Types shared by the builder and the endpoint descriptors.

pub mod decimal;
pub mod route;
pub mod version;
