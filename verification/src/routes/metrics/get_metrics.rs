//! Listing the active metrics.

use crate::types::decimal::{append_decimal, decimal};
use crate::types::route::{api_root, api_root_string, HttpMethod, Request, RequestView, Route};
use crate::types::version::{ApiVersion, RouteKind, VersionMismatch};
use vstd::prelude::*;

verus! {

/// The call that lists the metrics that reported from some point on.
#[derive(Debug, PartialEq, Eq)]
pub struct GetMetrics {
    version: ApiVersion,
    from: usize,
    host: String,
    tag_filter: String,
}

/// What a [`GetMetrics`] holds, as plain values.
pub struct GetMetricsView {
    /// The version that the descriptor was constructed for.
    pub version: ApiVersion,
    /// The offset from which metrics are listed.
    pub from: nat,
    /// The host to filter by; empty for no filter.
    pub host: Seq<char>,
    /// The tag expression to filter by; empty for no filter.
    pub tag_filter: Seq<char>,
}

impl GetMetricsView {
    /// The descriptor as it is constructed: offset zero and no filters.
    pub open spec fn initial(version: ApiVersion) -> GetMetricsView {
        GetMetricsView { version, from: 0, host: Seq::empty(), tag_filter: Seq::empty() }
    }

    /// The path of the call with its query string: the offset as a decimal
    /// numeral, then the two filters as they are, each of the three under
    /// its own name and present even when empty.
    pub open spec fn path(self) -> Seq<char> {
        api_root(self.version) + "/metrics?from="@ + decimal(self.from) + "&host="@ + self.host
            + "&tag_filter="@ + self.tag_filter
    }
}

impl View for GetMetrics {
    type V = GetMetricsView;

    closed spec fn view(&self) -> GetMetricsView {
        GetMetricsView {
            version: self.version,
            from: self.from as nat,
            host: self.host@,
            tag_filter: self.tag_filter@,
        }
    }
}

impl GetMetrics {
    /// A descriptor exists only for a version that serves the endpoint.
    #[verifier::type_invariant]
    closed spec fn served(&self) -> bool {
        self.version.serves(RouteKind::GetMetrics)
    }

    /// The descriptor for `version`, with offset zero and no filters. Fails
    /// exactly when `version` does not serve the endpoint, with the mismatch
    /// that names the version and the endpoint.
    pub fn try_from(version: ApiVersion) -> (r: Result<GetMetrics, VersionMismatch>)
        ensures
            r is Ok <==> version.serves(RouteKind::GetMetrics),
            r is Ok ==> r->Ok_0@ == GetMetricsView::initial(version),
            r is Err ==> r->Err_0 == (VersionMismatch { version, kind: RouteKind::GetMetrics }),
    {
        match version.accept(RouteKind::GetMetrics) {
            Ok(()) => Ok(
                GetMetrics { version, from: 0, host: String::new(), tag_filter: String::new() },
            ),
            Err(e) => Err(e),
        }
    }

    /// Sets the offset from which metrics are listed and leaves the rest as
    /// it is.
    pub fn set_from(self, from: usize) -> (r: GetMetrics)
        ensures
            r@ == (GetMetricsView { from: from as nat, ..self@ }),
    {
        proof {
            use_type_invariant(&self);
        }
        GetMetrics { version: self.version, from, host: self.host, tag_filter: self.tag_filter }
    }

    /// Sets the host to filter by and leaves the rest as it is.
    pub fn set_host(self, host: String) -> (r: GetMetrics)
        ensures
            r@ == (GetMetricsView { host: host@, ..self@ }),
    {
        proof {
            use_type_invariant(&self);
        }
        GetMetrics { version: self.version, from: self.from, host, tag_filter: self.tag_filter }
    }

    /// Sets the tag expression to filter by and leaves the rest as it is.
    pub fn set_tag_filter(self, tag_filter: String) -> (r: GetMetrics)
        ensures
            r@ == (GetMetricsView { tag_filter: tag_filter@, ..self@ }),
    {
        proof {
            use_type_invariant(&self);
        }
        GetMetrics { version: self.version, from: self.from, host: self.host, tag_filter }
    }

    /// The offset from which metrics are listed.
    pub fn from(&self) -> (n: usize)
        ensures
            n == self@.from,
    {
        self.from
    }

    /// The host to filter by; empty for no filter.
    pub fn host(&self) -> (s: &str)
        ensures
            s@ == self@.host,
    {
        self.host.as_str()
    }

    /// The tag expression to filter by; empty for no filter.
    pub fn tag_filter(&self) -> (s: &str)
        ensures
            s@ == self@.tag_filter,
    {
        self.tag_filter.as_str()
    }
}

impl Clone for GetMetrics {
    /// An independent copy that holds the same values.
    fn clone(&self) -> (r: GetMetrics)
        ensures
            r@ == self@,
    {
        proof {
            use_type_invariant(self);
        }
        GetMetrics {
            version: self.version,
            from: self.from,
            host: self.host.clone(),
            tag_filter: self.tag_filter.clone(),
        }
    }
}

impl Route for GetMetrics {
    open spec fn kind(&self) -> RouteKind {
        RouteKind::GetMetrics
    }

    open spec fn api_version(&self) -> ApiVersion {
        self@.version
    }

    open spec fn call(&self) -> RequestView {
        RequestView { method: HttpMethod::Get, path: self@.path(), body: Seq::empty() }
    }

    fn version(&self) -> (v: ApiVersion) {
        proof {
            use_type_invariant(self);
        }
        self.version
    }

    fn request(&self) -> (r: Request) {
        let mut path = api_root_string(self.version);
        path.append("/metrics?from=");
        append_decimal(&mut path, self.from);
        path.append("&host=");
        path.append(self.host.as_str());
        path.append("&tag_filter=");
        path.append(self.tag_filter.as_str());
        Request { method: HttpMethod::Get, path, body: String::new() }
    }
}

} // verus!
