//! The capability that every endpoint descriptor offers.

use crate::types::version::{ApiVersion, RouteKind};
use vstd::prelude::*;

verus! {

/// The HTTP methods that the endpoints use.
#[derive(Clone, Copy, Debug, PartialEq, Eq, Structural)]
pub enum HttpMethod {
    /// `GET`
    Get,
    /// `POST`
    Post,
}

impl HttpMethod {
    /// The method's name on the wire.
    pub open spec fn name(self) -> Seq<char> {
        match self {
            HttpMethod::Get => "GET"@,
            HttpMethod::Post => "POST"@,
        }
    }

    /// The method's name on the wire: `"GET"` or `"POST"`.
    pub fn as_str(&self) -> (s: &'static str)
        ensures
            s@ == self.name(),
    {
        match self {
            HttpMethod::Get => "GET",
            HttpMethod::Post => "POST",
        }
    }
}

/// One HTTP call, ready to be handed to a transport.
#[derive(Debug, PartialEq, Eq)]
pub struct Request {
    /// The HTTP method.
    pub method: HttpMethod,
    /// The path below the API's base URL, with its query string if any.
    pub path: String,
    /// The serialized payload; empty where the call carries none.
    pub body: String,
}

/// What a [`Request`] holds, as plain values.
pub struct RequestView {
    /// The HTTP method.
    pub method: HttpMethod,
    /// The path below the API's base URL, with its query string if any.
    pub path: Seq<char>,
    /// The serialized payload; empty where the call carries none.
    pub body: Seq<char>,
}

impl View for Request {
    type V = RequestView;

    open spec fn view(&self) -> RequestView {
        RequestView { method: self.method, path: self.path@, body: self.body@ }
    }
}

impl Clone for Request {
    /// An independent copy that holds the same values.
    fn clone(&self) -> (r: Request)
        ensures
            r@ == self@,
    {
        Request { method: self.method, path: self.path.clone(), body: self.body.clone() }
    }
}

/// The root of every path of `version`: `/api/v1` or `/api/v2`.
pub open spec fn api_root(version: ApiVersion) -> Seq<char> {
    "/api/"@ + version.segment()
}

/// Builds the root of every path of `version`.
pub fn api_root_string(version: ApiVersion) -> (s: String)
    ensures
        s@ == api_root(version),
{
    let mut s = String::from_str("/api/");
    s.append(version.as_str());
    s
}

/// A description of one call to one endpoint.
pub trait Route {
    /// The endpoint family that the descriptor belongs to.
    spec fn kind(&self) -> RouteKind;

    /// The version that the descriptor was constructed for.
    spec fn api_version(&self) -> ApiVersion;

    /// The call that the descriptor stands for.
    spec fn call(&self) -> RequestView;

    /// The version that the descriptor was constructed for. It always serves
    /// the descriptor's endpoint family.
    fn version(&self) -> (v: ApiVersion)
        ensures
            v == self.api_version(),
            v.serves(self.kind()),
    ;

    /// Materializes the method, path and body of the call.
    fn request(&self) -> (r: Request)
        ensures
            r@ == self.call(),
    ;
}

} // verus!
