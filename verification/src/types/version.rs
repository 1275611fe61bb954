//! API versions and the endpoint families they serve.

use vstd::prelude::*;

verus! {

/// A version of the Datadog API.
#[derive(Clone, Copy, Debug, PartialEq, Eq, Structural)]
pub enum ApiVersion {
    /// Version 1, served under `/api/v1`.
    V1,
    /// Version 2, served under `/api/v2`.
    V2,
}

/// The endpoint families that the builder can address.
#[derive(Clone, Copy, Debug, PartialEq, Eq, Structural)]
pub enum RouteKind {
    /// Creating the tag configuration of a metric.
    TagConfig,
    /// Submitting metric series.
    Series,
    /// Submitting distribution points.
    Distribution,
    /// Listing the active metrics.
    GetMetrics,
}

/// An endpoint family was asked for under a version that does not serve it.
#[derive(Clone, Copy, Debug, PartialEq, Eq, Structural)]
pub struct VersionMismatch {
    /// The version that was selected.
    pub version: ApiVersion,
    /// The endpoint family that was asked for.
    pub kind: RouteKind,
}

impl ApiVersion {
    /// The path segment that names this version.
    pub open spec fn segment(self) -> Seq<char> {
        match self {
            ApiVersion::V1 => "v1"@,
            ApiVersion::V2 => "v2"@,
        }
    }

    /// Whether this version serves the endpoint family `kind`. The table is
    /// kept per family, so that a later version can serve some families and
    /// not others.
    pub open spec fn serves(self, kind: RouteKind) -> bool {
        match kind {
            RouteKind::TagConfig => self == ApiVersion::V2,
            RouteKind::Series => self == ApiVersion::V2,
            RouteKind::Distribution => self == ApiVersion::V2,
            RouteKind::GetMetrics => self == ApiVersion::V2,
        }
    }

    /// The path segment that names this version: `"v1"` or `"v2"`.
    pub fn as_str(&self) -> (s: &'static str)
        ensures
            s@ == self.segment(),
    {
        match self {
            ApiVersion::V1 => "v1",
            ApiVersion::V2 => "v2",
        }
    }

    /// Whether this version serves the endpoint family `kind`.
    #[verifier::when_used_as_spec(serves)]
    pub fn supports(self, kind: RouteKind) -> (b: bool)
        ensures
            b == self.serves(kind),
    {
        match kind {
            RouteKind::TagConfig => self == ApiVersion::V2,
            RouteKind::Series => self == ApiVersion::V2,
            RouteKind::Distribution => self == ApiVersion::V2,
            RouteKind::GetMetrics => self == ApiVersion::V2,
        }
    }

    /// Decides whether an endpoint of the family `kind` may be constructed
    /// under this version: `Ok` exactly when the version serves `kind`, and
    /// otherwise the mismatch, which names both. Every endpoint constructor
    /// asks here.
    pub fn accept(self, kind: RouteKind) -> (r: Result<(), VersionMismatch>)
        ensures
            self.serves(kind) ==> r == Ok::<(), VersionMismatch>(()),
            !self.serves(kind) ==> r == Err::<(), VersionMismatch>(
                VersionMismatch { version: self, kind },
            ),
    {
        if self.supports(kind) {
            Ok(())
        } else {
            Err(VersionMismatch { version: self, kind })
        }
    }
}

impl Default for ApiVersion {
    /// The version a fresh builder starts with: the latest one.
    fn default() -> (v: Self)
        ensures
            v == ApiVersion::V2,
    {
        ApiVersion::V2
    }
}

} // verus!
