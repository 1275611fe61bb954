//! Submitting distribution points.

use crate::types::route::{api_root, api_root_string, HttpMethod, Request, RequestView, Route};
use crate::types::version::{ApiVersion, RouteKind, VersionMismatch};
use vstd::prelude::*;

verus! {

/// The call that submits distribution points.
#[derive(Debug, PartialEq, Eq)]
pub struct Distribution {
    version: ApiVersion,
    body: String,
}

/// What a [`Distribution`] holds, as plain values.
pub struct DistributionView {
    /// The version that the descriptor was constructed for.
    pub version: ApiVersion,
    /// The serialized payload: the points to submit.
    pub body: Seq<char>,
}

impl DistributionView {
    /// The descriptor as it is constructed: an empty payload.
    pub open spec fn initial(version: ApiVersion) -> DistributionView {
        DistributionView { version, body: Seq::empty() }
    }

    /// The path of the call.
    pub open spec fn path(self) -> Seq<char> {
        api_root(self.version) + "/distribution_points"@
    }
}

impl View for Distribution {
    type V = DistributionView;

    closed spec fn view(&self) -> DistributionView {
        DistributionView { version: self.version, body: self.body@ }
    }
}

impl Distribution {
    /// A descriptor exists only for a version that serves the endpoint.
    #[verifier::type_invariant]
    closed spec fn served(&self) -> bool {
        self.version.serves(RouteKind::Distribution)
    }

    /// The descriptor for `version`, with an empty payload. Fails exactly
    /// when `version` does not serve the endpoint, with the mismatch that
    /// names the version and the endpoint.
    pub fn try_from(version: ApiVersion) -> (r: Result<Distribution, VersionMismatch>)
        ensures
            r is Ok <==> version.serves(RouteKind::Distribution),
            r is Ok ==> r->Ok_0@ == DistributionView::initial(version),
            r is Err ==> r->Err_0 == (VersionMismatch { version, kind: RouteKind::Distribution }),
    {
        match version.accept(RouteKind::Distribution) {
            Ok(()) => Ok(Distribution { version, body: String::new() }),
            Err(e) => Err(e),
        }
    }

    /// Sets the serialized payload and leaves the rest as it is.
    pub fn set_body(self, body: String) -> (r: Distribution)
        ensures
            r@ == (DistributionView { body: body@, ..self@ }),
    {
        proof {
            use_type_invariant(&self);
        }
        Distribution { version: self.version, body }
    }

    /// The serialized payload.
    pub fn body(&self) -> (s: &str)
        ensures
            s@ == self@.body,
    {
        self.body.as_str()
    }
}

impl Clone for Distribution {
    /// An independent copy that holds the same values.
    fn clone(&self) -> (r: Distribution)
        ensures
            r@ == self@,
    {
        proof {
            use_type_invariant(self);
        }
        Distribution { version: self.version, body: self.body.clone() }
    }
}

impl Route for Distribution {
    open spec fn kind(&self) -> RouteKind {
        RouteKind::Distribution
    }

    open spec fn api_version(&self) -> ApiVersion {
        self@.version
    }

    open spec fn call(&self) -> RequestView {
        RequestView { method: HttpMethod::Post, path: self@.path(), body: self@.body }
    }

    fn version(&self) -> (v: ApiVersion) {
        proof {
            use_type_invariant(self);
        }
        self.version
    }

    fn request(&self) -> (r: Request) {
        let mut path = api_root_string(self.version);
        path.append("/distribution_points");
        Request { method: HttpMethod::Post, path, body: self.body.clone() }
    }
}

} // verus!
