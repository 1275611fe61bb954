//! Submitting metric series.

use crate::types::route::{api_root, api_root_string, HttpMethod, Request, RequestView, Route};
use crate::types::version::{ApiVersion, RouteKind, VersionMismatch};
use vstd::prelude::*;

verus! {

/// The call that submits metric series.
#[derive(Debug, PartialEq, Eq)]
pub struct Series {
    version: ApiVersion,
    body: String,
}

/// What a [`Series`] holds, as plain values.
pub struct SeriesView {
    /// The version that the descriptor was constructed for.
    pub version: ApiVersion,
    /// The serialized payload: the series to submit.
    pub body: Seq<char>,
}

impl SeriesView {
    /// The descriptor as it is constructed: an empty payload.
    pub open spec fn initial(version: ApiVersion) -> SeriesView {
        SeriesView { version, body: Seq::empty() }
    }

    /// The path of the call.
    pub open spec fn path(self) -> Seq<char> {
        api_root(self.version) + "/series"@
    }
}

impl View for Series {
    type V = SeriesView;

    closed spec fn view(&self) -> SeriesView {
        SeriesView { version: self.version, body: self.body@ }
    }
}

impl Series {
    /// A descriptor exists only for a version that serves the endpoint.
    #[verifier::type_invariant]
    closed spec fn served(&self) -> bool {
        self.version.serves(RouteKind::Series)
    }

    /// The descriptor for `version`, with an empty payload. Fails exactly
    /// when `version` does not serve the endpoint, with the mismatch that
    /// names the version and the endpoint.
    pub fn try_from(version: ApiVersion) -> (r: Result<Series, VersionMismatch>)
        ensures
            r is Ok <==> version.serves(RouteKind::Series),
            r is Ok ==> r->Ok_0@ == SeriesView::initial(version),
            r is Err ==> r->Err_0 == (VersionMismatch { version, kind: RouteKind::Series }),
    {
        match version.accept(RouteKind::Series) {
            Ok(()) => Ok(Series { version, body: String::new() }),
            Err(e) => Err(e),
        }
    }

    /// Sets the serialized payload and leaves the rest as it is.
    pub fn set_body(self, body: String) -> (r: Series)
        ensures
            r@ == (SeriesView { body: body@, ..self@ }),
    {
        proof {
            use_type_invariant(&self);
        }
        Series { version: self.version, body }
    }

    /// The serialized payload.
    pub fn body(&self) -> (s: &str)
        ensures
            s@ == self@.body,
    {
        self.body.as_str()
    }
}

impl Clone for Series {
    /// An independent copy that holds the same values.
    fn clone(&self) -> (r: Series)
        ensures
            r@ == self@,
    {
        proof {
            use_type_invariant(self);
        }
        Series { version: self.version, body: self.body.clone() }
    }
}

impl Route for Series {
    open spec fn kind(&self) -> RouteKind {
        RouteKind::Series
    }

    open spec fn api_version(&self) -> ApiVersion {
        self@.version
    }

    open spec fn call(&self) -> RequestView {
        RequestView { method: HttpMethod::Post, path: self@.path(), body: self@.body }
    }

    fn version(&self) -> (v: ApiVersion) {
        proof {
            use_type_invariant(self);
        }
        self.version
    }

    fn request(&self) -> (r: Request) {
        let mut path = api_root_string(self.version);
        path.append("/series");
        Request { method: HttpMethod::Post, path, body: self.body.clone() }
    }
}

} // verus!
