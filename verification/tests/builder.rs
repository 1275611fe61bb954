use ddog::builder::Builder;
use ddog::routes::metrics::distribution::Distribution;
use ddog::routes::metrics::get_metrics::GetMetrics;
use ddog::routes::metrics::series::Series;
use ddog::routes::metrics::tags::Tags;
use ddog::types::route::{HttpMethod, Route};
use ddog::types::version::{ApiVersion, RouteKind, VersionMismatch};

fn pair(name: &str, value: &str) -> (String, String) {
    (name.to_string(), value.to_string())
}

#[test]
fn new_builder_has_default_version_and_no_headers() {
    let builder = Builder::new();
    assert_eq!(builder.version, ApiVersion::default());
    assert_eq!(builder.version, ApiVersion::V2);
    assert!(builder.headers.is_empty());
    assert_eq!(builder, Builder::default());
}

#[test]
fn last_selected_version_wins() {
    let mut builder = Builder::new();
    builder.v2().v1();
    assert_eq!(builder.version, ApiVersion::V1);
    builder.v1().v2();
    assert_eq!(builder.version, ApiVersion::V2);
    builder.v1();
    builder.v1();
    assert_eq!(builder.version, ApiVersion::V1);
}

#[test]
fn selecting_a_version_keeps_the_headers() {
    let mut builder = Builder::new();
    builder.with_headers(vec![pair("Accept", "application/json")]);
    builder.v1();
    assert_eq!(builder.headers, vec![pair("Accept", "application/json")]);
    builder.v2();
    assert_eq!(builder.headers, vec![pair("Accept", "application/json")]);
}

#[test]
fn headers_accumulate_in_order_and_keep_duplicates() {
    let mut builder = Builder::new();
    builder.with_headers(vec![pair("A", "1"), pair("B", "2")]);
    builder.with_headers(vec![pair("A", "3")]);
    assert_eq!(builder.headers, vec![pair("A", "1"), pair("B", "2"), pair("A", "3")]);
}

#[test]
fn headers_chain_like_a_single_call() {
    let mut chained = Builder::new();
    chained
        .with_headers(vec![pair("Accept", "application/json")])
        .with_headers(vec![pair("DD-API-KEY", "k"), pair("DD-APPLICATION-KEY", "a")]);
    let mut single = Builder::new();
    single.with_headers(vec![
        pair("Accept", "application/json"),
        pair("DD-API-KEY", "k"),
        pair("DD-APPLICATION-KEY", "a"),
    ]);
    assert_eq!(chained, single);
    assert_eq!(chained.headers.len(), 3);
}

#[test]
fn adding_no_headers_changes_nothing() {
    let mut builder = Builder::new();
    builder.with_headers(vec![pair("Content-Type", "application/json")]);
    let before = builder.clone();
    builder.with_headers(Vec::new());
    assert_eq!(builder, before);
}

#[test]
fn with_headers_keeps_the_version() {
    let mut builder = Builder::new();
    builder.v1().with_headers(vec![pair("A", "1")]);
    assert_eq!(builder.version, ApiVersion::V1);
}

#[test]
fn a_clone_is_independent() {
    let mut builder = Builder::new();
    builder.with_headers(vec![pair("A", "1")]);
    let mut copy = builder.clone();
    copy.v1().with_headers(vec![pair("B", "2")]);
    assert_eq!(builder.version, ApiVersion::V2);
    assert_eq!(builder.headers, vec![pair("A", "1")]);
    assert_eq!(copy.version, ApiVersion::V1);
    assert_eq!(copy.headers, vec![pair("A", "1"), pair("B", "2")]);
}

#[test]
fn get_metrics_under_v2_takes_offset_and_filters() {
    let mut builder = Builder::new();
    builder.v2();
    let route = builder.get_metrics(10, None, Some("env:prod".to_string()));
    assert_eq!(route.from(), 10);
    assert_eq!(route.host(), "");
    assert_eq!(route.tag_filter(), "env:prod");
    assert_eq!(route.version(), ApiVersion::V2);
    let request = route.request();
    assert_eq!(request.method, HttpMethod::Get);
    assert_eq!(request.path, "/api/v2/metrics?from=10&host=&tag_filter=env:prod");
    assert_eq!(request.body, "");
}

#[test]
fn get_metrics_with_host_and_no_tag_filter() {
    let mut builder = Builder::new();
    builder.v2();
    let route = builder.get_metrics(0, Some("web-1".to_string()), None);
    assert_eq!(route.from(), 0);
    assert_eq!(route.host(), "web-1");
    assert_eq!(route.tag_filter(), "");
    assert_eq!(route.request().path, "/api/v2/metrics?from=0&host=web-1&tag_filter=");
}

#[test]
fn create_new_tag_config_under_v2() {
    let mut builder = Builder::new();
    let route = builder.v2().create_new_tag_config("my.metric.name");
    assert_eq!(route.metric_name(), "my.metric.name");
    assert_eq!(route.body(), "");
    assert_eq!(route.version(), ApiVersion::V2);
    let request = route.request();
    assert_eq!(request.method, HttpMethod::Post);
    assert_eq!(request.path, "/api/v2/metrics/my.metric.name/tags");
    assert_eq!(request.body, "");
}

#[test]
fn post_series_under_v2() {
    let mut builder = Builder::new();
    let route = builder.v2().post_series();
    assert_eq!(route.version(), ApiVersion::V2);
    assert_eq!(route.body(), "");
    let request = route.request();
    assert_eq!(request.method, HttpMethod::Post);
    assert_eq!(request.path, "/api/v2/series");
    assert_eq!(request.body, "");
}

#[test]
fn post_distribution_under_v2() {
    let mut builder = Builder::new();
    let route = builder.v2().post_distribution();
    assert_eq!(route.version(), ApiVersion::V2);
    assert_eq!(route.body(), "");
    let request = route.request();
    assert_eq!(request.method, HttpMethod::Post);
    assert_eq!(request.path, "/api/v2/distribution_points");
    assert_eq!(request.body, "");
}

#[test]
fn every_operation_succeeds_under_v2() {
    let builder = Builder::new();
    assert_eq!(
        builder.try_create_new_tag_config("cpu.load"),
        Ok(Tags::try_from(ApiVersion::V2).unwrap().set_metric_name("cpu.load".to_string()))
    );
    assert_eq!(builder.try_post_series(), Series::try_from(ApiVersion::V2));
    assert_eq!(builder.try_post_distribution(), Distribution::try_from(ApiVersion::V2));
    assert_eq!(
        builder.try_get_metrics(7, Some("h".to_string()), Some("t".to_string())),
        Ok(GetMetrics::try_from(ApiVersion::V2)
            .unwrap()
            .set_from(7)
            .set_host("h".to_string())
            .set_tag_filter("t".to_string()))
    );
    assert!(builder.try_post_series().is_ok());
}

#[test]
fn every_operation_is_refused_under_v1() {
    let mut builder = Builder::new();
    builder.v1();
    assert_eq!(
        builder.try_create_new_tag_config("cpu.load"),
        Err(VersionMismatch { version: ApiVersion::V1, kind: RouteKind::TagConfig })
    );
    assert_eq!(
        builder.try_post_series(),
        Err(VersionMismatch { version: ApiVersion::V1, kind: RouteKind::Series })
    );
    assert_eq!(
        builder.try_post_distribution(),
        Err(VersionMismatch { version: ApiVersion::V1, kind: RouteKind::Distribution })
    );
    assert_eq!(
        builder.try_get_metrics(10, None, Some("env:prod".to_string())),
        Err(VersionMismatch { version: ApiVersion::V1, kind: RouteKind::GetMetrics })
    );
}

#[test]
fn operations_leave_the_builder_as_it_is() {
    let mut builder = Builder::new();
    builder.with_headers(vec![pair("A", "1")]);
    let before = builder.clone();
    let _ = builder.post_series();
    let _ = builder.get_metrics(1, None, None);
    assert_eq!(builder, before);
}

#[test]
fn prelude_names_the_builder_and_the_routes() {
    let mut builder = ddog::prelude::Builder::new();
    builder.v2();
    let route: ddog::prelude::Tags = builder.create_new_tag_config("my.metric.name");
    let request = ddog::prelude::Route::request(&route);
    assert_eq!(request.method, ddog::prelude::HttpMethod::Post);
    assert_eq!(route.version(), ddog::prelude::ApiVersion::V2);
}
