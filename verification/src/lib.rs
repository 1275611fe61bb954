//! A typed request builder for the Datadog metrics API.
//!
//! A [`builder::Builder`] selects an API version and collects headers. Each
//! of its operations yields an endpoint descriptor that knows its own HTTP
//! method, path and body; sending the request is left to the caller.
//!
//! ```
//! use ddog::builder::Builder;
//! use ddog::types::route::Route;
//!
//! let mut builder = Builder::new();
//! builder.v2().with_headers(vec![
//!     ("Accept".to_string(), "application/json".to_string()),
//!     ("DD-API-KEY".to_string(), "<api_key>".to_string()),
//! ]);
//! let route = builder.try_create_new_tag_config("my.metric.name").unwrap();
//! let request = route.request();
//! assert_eq!(request.path, "/api/v2/metrics/my.metric.name/tags");
//! ```
//!
//! An endpoint descriptor exists only for a version that serves its
//! endpoint. Under another version the `try_` operations return a
//! [`types::version::VersionMismatch`], and the operations without `try_`
//! may not be called at all.

pub mod builder;
pub mod json;
pub mod prelude;
pub mod routes;
pub mod types;
