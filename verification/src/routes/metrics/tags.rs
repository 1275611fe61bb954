//! Creating the tag configuration of a metric.

use crate::types::route::{api_root, api_root_string, HttpMethod, Request, RequestView, Route};
use crate::types::version::{ApiVersion, RouteKind, VersionMismatch};
use vstd::prelude::*;

verus! {

/// The call that creates the tag configuration of one metric.
#[derive(Debug, PartialEq, Eq)]
pub struct Tags {
    version: ApiVersion,
    metric_name: String,
    body: String,
}

/// What a [`Tags`] holds, as plain values.
pub struct TagsView {
    /// The version that the descriptor was constructed for.
    pub version: ApiVersion,
    /// The name of the metric whose tags are configured.
    pub metric_name: Seq<char>,
    /// The serialized payload: the tag configuration.
    pub body: Seq<char>,
}

impl TagsView {
    /// The descriptor as it is constructed: no metric name and an empty
    /// payload.
    pub open spec fn initial(version: ApiVersion) -> TagsView {
        TagsView { version, metric_name: Seq::empty(), body: Seq::empty() }
    }

    /// The path of the call. The metric name stands in it as it is.
    pub open spec fn path(self) -> Seq<char> {
        api_root(self.version) + "/metrics/"@ + self.metric_name + "/tags"@
    }
}

impl View for Tags {
    type V = TagsView;

    closed spec fn view(&self) -> TagsView {
        TagsView { version: self.version, metric_name: self.metric_name@, body: self.body@ }
    }
}

impl Tags {
    /// A descriptor exists only for a version that serves the endpoint.
    #[verifier::type_invariant]
    closed spec fn served(&self) -> bool {
        self.version.serves(RouteKind::TagConfig)
    }

    /// The descriptor for `version`, with no metric name and an empty
    /// payload. Fails exactly when `version` does not serve the endpoint,
    /// with the mismatch that names the version and the endpoint.
    pub fn try_from(version: ApiVersion) -> (r: Result<Tags, VersionMismatch>)
        ensures
            r is Ok <==> version.serves(RouteKind::TagConfig),
            r is Ok ==> r->Ok_0@ == TagsView::initial(version),
            r is Err ==> r->Err_0 == (VersionMismatch { version, kind: RouteKind::TagConfig }),
    {
        match version.accept(RouteKind::TagConfig) {
            Ok(()) => Ok(Tags { version, metric_name: String::new(), body: String::new() }),
            Err(e) => Err(e),
        }
    }

    /// Sets the name of the metric whose tags are configured and leaves the
    /// rest as it is.
    pub fn set_metric_name(self, metric_name: String) -> (r: Tags)
        ensures
            r@ == (TagsView { metric_name: metric_name@, ..self@ }),
    {
        proof {
            use_type_invariant(&self);
        }
        Tags { version: self.version, metric_name, body: self.body }
    }

    /// Sets the serialized payload and leaves the rest as it is.
    pub fn set_body(self, body: String) -> (r: Tags)
        ensures
            r@ == (TagsView { body: body@, ..self@ }),
    {
        proof {
            use_type_invariant(&self);
        }
        Tags { version: self.version, metric_name: self.metric_name, body }
    }

    /// The name of the metric whose tags are configured.
    pub fn metric_name(&self) -> (s: &str)
        ensures
            s@ == self@.metric_name,
    {
        self.metric_name.as_str()
    }

    /// The serialized payload.
    pub fn body(&self) -> (s: &str)
        ensures
            s@ == self@.body,
    {
        self.body.as_str()
    }
}

impl Clone for Tags {
    /// An independent copy that holds the same values.
    fn clone(&self) -> (r: Tags)
        ensures
            r@ == self@,
    {
        proof {
            use_type_invariant(self);
        }
        Tags {
            version: self.version,
            metric_name: self.metric_name.clone(),
            body: self.body.clone(),
        }
    }
}

impl Route for Tags {
    open spec fn kind(&self) -> RouteKind {
        RouteKind::TagConfig
    }

    open spec fn api_version(&self) -> ApiVersion {
        self@.version
    }

    open spec fn call(&self) -> RequestView {
        RequestView { method: HttpMethod::Post, path: self@.path(), body: self@.body }
    }

    fn version(&self) -> (v: ApiVersion) {
        proof {
            use_type_invariant(self);
        }
        self.version
    }

    fn request(&self) -> (r: Request) {
        let mut path = api_root_string(self.version);
        path.append("/metrics/");
        path.append(self.metric_name.as_str());
        path.append("/tags");
        Request { method: HttpMethod::Post, path, body: self.body.clone() }
    }
}

} // verus!
