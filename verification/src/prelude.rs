//! The modules and types that most callers need, in one place.

pub use crate::builder::{self, Builder, BuilderView};
pub use crate::json;
pub use crate::routes::{self, metrics};
pub use crate::routes::metrics::distribution::{Distribution, DistributionView};
pub use crate::routes::metrics::get_metrics::{GetMetrics, GetMetricsView};
pub use crate::routes::metrics::series::{Series, SeriesView};
pub use crate::routes::metrics::tags::{Tags, TagsView};
pub use crate::types::{self, route, version};
pub use crate::types::route::{HttpMethod, Request, RequestView, Route};
pub use crate::types::version::{ApiVersion, RouteKind, VersionMismatch};
