//! The request builder.

use crate::json::{parse_failure, parse_value, parses_as_json};
use crate::routes::metrics::distribution::{Distribution, DistributionView};
use crate::routes::metrics::get_metrics::{GetMetrics, GetMetricsView};
use crate::routes::metrics::series::{Series, SeriesView};
use crate::routes::metrics::tags::{Tags, TagsView};
use crate::types::route::Route;
use crate::types::version::{ApiVersion, RouteKind, VersionMismatch};
use vstd::pervasive::unreached;
use vstd::prelude::*;

verus! {

/// Selects an API version, collects headers, and hands out endpoint
/// descriptors for the selected version.
#[derive(Debug, PartialEq, Eq)]
pub struct Builder {
    /// The selected API version.
    pub version: ApiVersion,
    /// The request headers, in the order in which they were added.
    pub headers: Vec<(String, String)>,
}

/// What a [`Builder`] holds, as plain values.
pub struct BuilderView {
    /// The selected API version.
    pub version: ApiVersion,
    /// The request headers as pairs of name and value, oldest first.
    pub headers: Seq<(Seq<char>, Seq<char>)>,
}

impl BuilderView {
    /// The builder that nothing was done to yet: the default version and no
    /// headers.
    pub open spec fn initial() -> BuilderView {
        BuilderView { version: ApiVersion::V2, headers: Seq::empty() }
    }

    /// This builder with `version` selected.
    pub open spec fn select(self, version: ApiVersion) -> BuilderView {
        BuilderView { version, ..self }
    }

    /// This builder with `pairs` added after its headers.
    pub open spec fn with_headers(self, pairs: Seq<(Seq<char>, Seq<char>)>) -> BuilderView {
        BuilderView { headers: self.headers + pairs, ..self }
    }

    /// What an operation reports when the selected version does not serve
    /// the endpoint family `kind`.
    pub open spec fn mismatch(self, kind: RouteKind) -> VersionMismatch {
        VersionMismatch { version: self.version, kind }
    }
}

/// The names and values of a list of header pairs, in the list's order.
pub open spec fn header_texts(pairs: Seq<(String, String)>) -> Seq<(Seq<char>, Seq<char>)> {
    pairs.map_values(|pair: (String, String)| (pair.0@, pair.1@))
}

/// The text of an optional filter: empty where none is given.
pub open spec fn filter_text(filter: Option<String>) -> Seq<char> {
    match filter {
        Some(s) => s@,
        None => Seq::empty(),
    }
}

impl View for Builder {
    type V = BuilderView;

    open spec fn view(&self) -> BuilderView {
        BuilderView { version: self.version, headers: header_texts(self.headers@) }
    }
}

/// The texts of a concatenation are the texts of its parts, in order.
pub proof fn lemma_header_texts_concat(first: Seq<(String, String)>, second: Seq<(String, String)>)
    ensures
        header_texts(first + second) == header_texts(first) + header_texts(second),
{
    assert(header_texts(first + second) =~= header_texts(first) + header_texts(second));
}

/// Headers accumulate: adding `first` and then `second` gives what adding
/// the two at once gives. The headers that were there come first, then
/// those of `first`, then those of `second`, each group in its own order,
/// and every pair is kept, whether or not its name occurred before.
pub proof fn lemma_headers_accumulate(
    builder: BuilderView,
    first: Seq<(Seq<char>, Seq<char>)>,
    second: Seq<(Seq<char>, Seq<char>)>,
)
    ensures
        builder.with_headers(first).with_headers(second) == builder.with_headers(first + second),
        builder.with_headers(first).with_headers(second).headers.len() == builder.headers.len()
            + first.len() + second.len(),
        forall|i: int|
            0 <= i < builder.headers.len() ==> builder.with_headers(first).with_headers(
                second,
            ).headers[i] == builder.headers[i],
        forall|i: int|
            0 <= i < first.len() ==> builder.with_headers(first).with_headers(
                second,
            ).headers[builder.headers.len() + i] == first[i],
        forall|i: int|
            0 <= i < second.len() ==> builder.with_headers(first).with_headers(
                second,
            ).headers[builder.headers.len() + first.len() + i] == second[i],
{
    assert((builder.headers + first) + second =~= builder.headers + (first + second));
}

/// The version selected last is the one that holds, whatever was selected
/// before, and selecting a version leaves the headers alone.
pub proof fn lemma_last_selection_wins(
    builder: BuilderView,
    earlier: ApiVersion,
    later: ApiVersion,
)
    ensures
        builder.select(earlier).select(later) == builder.select(later),
        builder.select(later).version == later,
        builder.select(later).headers == builder.headers,
{
}

impl Default for Builder {
    /// The initial builder: the default version and no headers.
    fn default() -> (b: Builder)
        ensures
            b@ == BuilderView::initial(),
    {
        let b = Builder { version: ApiVersion::default(), headers: Vec::new() };
        assert(b@.headers =~= Seq::empty());
        b
    }
}

impl Clone for Builder {
    /// An independent copy that holds the same version and headers.
    fn clone(&self) -> (b: Builder)
        ensures
            b@ == self@,
    {
        let mut headers: Vec<(String, String)> = Vec::new();
        let mut i: usize = 0;
        while i < self.headers.len()
            invariant
                i <= self.headers.len(),
                headers@ == self.headers@.take(i as int),
            decreases self.headers.len() - i,
        {
            let pair = &self.headers[i];
            headers.push((pair.0.clone(), pair.1.clone()));
            i += 1;
        }
        assert(headers@ =~= self.headers@);
        Builder { version: self.version, headers }
    }
}

impl Builder {
    /// A builder with the default version and no headers.
    pub fn new() -> (b: Builder)
        ensures
            b@ == BuilderView::initial(),
    {
        Builder::default()
    }

    /// Checks that `body` is a JSON document: `None` when it is, and
    /// otherwise the error that the parser reports. The builder plays no
    /// part in the answer.
    pub fn is_body_valid_json(body: &str) -> (r: Option<serde_json::Error>)
        ensures
            r is None <==> parses_as_json(body@),
    {
        parse_failure(parse_value(body))
    }

    /// Selects version 1, whatever was selected before, and leaves the
    /// headers as they are. Returns the builder itself, for chaining.
    pub fn v1(&mut self) -> (b: &mut Builder)
        ensures
            b@ == old(self)@.select(ApiVersion::V1),
            *final(self) == *final(b),
    {
        self.version = ApiVersion::V1;
        self
    }

    /// Selects version 2, whatever was selected before, and leaves the
    /// headers as they are. Returns the builder itself, for chaining.
    pub fn v2(&mut self) -> (b: &mut Builder)
        ensures
            b@ == old(self)@.select(ApiVersion::V2),
            *final(self) == *final(b),
    {
        self.version = ApiVersion::V2;
        self
    }

    /// Appends `pairs` to the headers, in their order and after the headers
    /// that are already there. No pair is dropped or merged: a name may
    /// occur any number of times. Returns the builder itself, for chaining.
    pub fn with_headers(&mut self, pairs: Vec<(String, String)>) -> (b: &mut Builder)
        ensures
            b@ == old(self)@.with_headers(header_texts(pairs@)),
            *final(self) == *final(b),
    {
        let mut pairs = pairs;
        proof {
            lemma_header_texts_concat(self.headers@, pairs@);
        }
        self.headers.append(&mut pairs);
        self
    }

    /// The descriptor of the call that creates the tag configuration of the
    /// metric `metric_name`, with an empty payload; or, where the selected
    /// version does not serve that endpoint, the mismatch.
    pub fn try_create_new_tag_config(&self, metric_name: &str) -> (r: Result<Tags, VersionMismatch>)
        ensures
            r is Ok <==> self@.version.serves(RouteKind::TagConfig),
            r is Ok ==> r->Ok_0.kind() == RouteKind::TagConfig && r->Ok_0@ == (TagsView {
                metric_name: metric_name@,
                ..TagsView::initial(self@.version)
            }),
            r is Err ==> r->Err_0 == self@.mismatch(RouteKind::TagConfig),
    {
        match Tags::try_from(self.version) {
            Ok(tags) => Ok(tags.set_metric_name(metric_name.to_owned())),
            Err(e) => Err(e),
        }
    }

    /// The descriptor of the call that submits metric series, with an empty
    /// payload; or, where the selected version does not serve that endpoint,
    /// the mismatch.
    pub fn try_post_series(&self) -> (r: Result<Series, VersionMismatch>)
        ensures
            r is Ok <==> self@.version.serves(RouteKind::Series),
            r is Ok ==> r->Ok_0.kind() == RouteKind::Series && r->Ok_0@ == SeriesView::initial(self@.version),
            r is Err ==> r->Err_0 == self@.mismatch(RouteKind::Series),
    {
        Series::try_from(self.version)
    }

    /// The descriptor of the call that submits distribution points, with an
    /// empty payload; or, where the selected version does not serve that
    /// endpoint, the mismatch.
    pub fn try_post_distribution(&self) -> (r: Result<Distribution, VersionMismatch>)
        ensures
            r is Ok <==> self@.version.serves(RouteKind::Distribution),
            r is Ok ==> r->Ok_0.kind() == RouteKind::Distribution && r->Ok_0@ == DistributionView::initial(self@.version),
            r is Err ==> r->Err_0 == self@.mismatch(RouteKind::Distribution),
    {
        Distribution::try_from(self.version)
    }

    /// The descriptor of the call that lists the active metrics from the
    /// offset `from` on, filtered by `host` and by `tag_filter`, each of
    /// which counts as empty where it is not given; or, where the selected
    /// version does not serve that endpoint, the mismatch.
    pub fn try_get_metrics(
        &self,
        from: usize,
        host: Option<String>,
        tag_filter: Option<String>,
    ) -> (r: Result<GetMetrics, VersionMismatch>)
        ensures
            r is Ok <==> self@.version.serves(RouteKind::GetMetrics),
            r is Ok ==> r->Ok_0.kind() == RouteKind::GetMetrics && r->Ok_0@ == (GetMetricsView {
                version: self@.version,
                from: from as nat,
                host: filter_text(host),
                tag_filter: filter_text(tag_filter),
            }),
            r is Err ==> r->Err_0 == self@.mismatch(RouteKind::GetMetrics),
    {
        match GetMetrics::try_from(self.version) {
            Ok(metrics) => {
                let host = match host {
                    Some(h) => h,
                    None => String::new(),
                };
                let tag_filter = match tag_filter {
                    Some(t) => t,
                    None => String::new(),
                };
                Ok(metrics.set_from(from).set_host(host).set_tag_filter(tag_filter))
            },
            Err(e) => Err(e),
        }
    }

    /// The descriptor of the call that creates the tag configuration of the
    /// metric `metric_name`, with an empty payload. The selected version
    /// must serve the endpoint; [`Builder::try_create_new_tag_config`] asks
    /// for nothing.
    pub fn create_new_tag_config(&self, metric_name: &str) -> (route: Tags)
        requires
            self@.version.serves(RouteKind::TagConfig),
        ensures
            route.kind() == RouteKind::TagConfig,
            route@ == (TagsView { metric_name: metric_name@, ..TagsView::initial(self@.version) }),
    {
        match self.try_create_new_tag_config(metric_name) {
            Ok(tags) => tags,
            Err(_) => unreached(),
        }
    }

    /// The descriptor of the call that submits metric series, with an empty
    /// payload. The selected version must serve the endpoint;
    /// [`Builder::try_post_series`] asks for nothing.
    pub fn post_series(&self) -> (route: Series)
        requires
            self@.version.serves(RouteKind::Series),
        ensures
            route.kind() == RouteKind::Series,
            route@ == SeriesView::initial(self@.version),
    {
        match self.try_post_series() {
            Ok(series) => series,
            Err(_) => unreached(),
        }
    }

    /// The descriptor of the call that submits distribution points, with an
    /// empty payload. The selected version must serve the endpoint;
    /// [`Builder::try_post_distribution`] asks for nothing.
    pub fn post_distribution(&self) -> (route: Distribution)
        requires
            self@.version.serves(RouteKind::Distribution),
        ensures
            route.kind() == RouteKind::Distribution,
            route@ == DistributionView::initial(self@.version),
    {
        match self.try_post_distribution() {
            Ok(distribution) => distribution,
            Err(_) => unreached(),
        }
    }

    /// The descriptor of the call that lists the active metrics from the
    /// offset `from` on, filtered by `host` and by `tag_filter`, each of
    /// which counts as empty where it is not given. The selected version
    /// must serve the endpoint; [`Builder::try_get_metrics`] asks for
    /// nothing.
    pub fn get_metrics(
        &self,
        from: usize,
        host: Option<String>,
        tag_filter: Option<String>,
    ) -> (route: GetMetrics)
        requires
            self@.version.serves(RouteKind::GetMetrics),
        ensures
            route.kind() == RouteKind::GetMetrics,
            route@ == (GetMetricsView {
                version: self@.version,
                from: from as nat,
                host: filter_text(host),
                tag_filter: filter_text(tag_filter),
            }),
    {
        match self.try_get_metrics(from, host, tag_filter) {
            Ok(metrics) => metrics,
            Err(_) => unreached(),
        }
    }
}

} // verus!
