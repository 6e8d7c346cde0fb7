//! Endpoint parsing over both path namespaces, and the legacy mapping.

use admin_gateway::endpoint::{Endpoint, Method};
use admin_gateway::gateway::AdminApiServer;
use admin_gateway::metrics::MetricsProvider;
use admin_gateway::response::ApiError;
use admin_gateway::vhost::VhostConfig;

fn server() -> AdminApiServer {
    AdminApiServer::new(
        VhostConfig { root_domain: None, website_root_domain: None },
        None,
        None,
        MetricsProvider::Disabled,
    )
}

fn parse(method: Method, path: &str, query: Option<&str>) -> Result<Endpoint, ApiError> {
    let q = query.map(|s| s.to_string());
    server().parse_endpoint(method, path, q.as_ref())
}

#[test]
fn special_paths_parse() {
    assert_eq!(parse(Method::Get, "/check", None), Ok(Endpoint::CheckDomain));
    assert_eq!(parse(Method::Get, "/health", None), Ok(Endpoint::Health));
    assert_eq!(parse(Method::Get, "/metrics", None), Ok(Endpoint::Metrics));
}

#[test]
fn options_matches_any_path() {
    assert_eq!(parse(Method::Options, "/anything", None), Ok(Endpoint::Options));
    assert_eq!(parse(Method::Options, "/v1/bucket", None), Ok(Endpoint::Options));
}

#[test]
fn current_namespace_routes_parse() {
    assert_eq!(parse(Method::Get, "/v1/status", None), Ok(Endpoint::GetClusterStatus));
    assert_eq!(parse(Method::Get, "/v1/health", None), Ok(Endpoint::GetClusterHealth));
    assert_eq!(parse(Method::Post, "/v1/connect", None), Ok(Endpoint::ConnectClusterNodes));
    assert_eq!(parse(Method::Get, "/v1/layout", None), Ok(Endpoint::GetClusterLayout));
    assert_eq!(parse(Method::Post, "/v1/layout", None), Ok(Endpoint::UpdateClusterLayout));
    assert_eq!(parse(Method::Post, "/v1/layout/apply", None), Ok(Endpoint::ApplyClusterLayout));
    assert_eq!(parse(Method::Post, "/v1/layout/revert", None), Ok(Endpoint::RevertClusterLayout));
    assert_eq!(parse(Method::Get, "/v1/key/list", None), Ok(Endpoint::ListKeys));
    assert_eq!(parse(Method::Post, "/v1/key", None), Ok(Endpoint::CreateKey));
    assert_eq!(parse(Method::Post, "/v1/key/import", None), Ok(Endpoint::ImportKey));
    assert_eq!(parse(Method::Get, "/v1/bucket/list", None), Ok(Endpoint::ListBuckets));
    assert_eq!(parse(Method::Post, "/v1/bucket", None), Ok(Endpoint::CreateBucket));
    assert_eq!(parse(Method::Post, "/v1/bucket/allow", None), Ok(Endpoint::BucketAllowKey));
    assert_eq!(parse(Method::Post, "/v1/bucket/deny", None), Ok(Endpoint::BucketDenyKey));
}

#[test]
fn key_info_carries_its_query_parameters() {
    let r = parse(Method::Get, "/v1/key", Some("id=k1&showSecretKey=true"));
    assert_eq!(
        r,
        Ok(Endpoint::GetKeyInfo {
            id: Some("k1".to_string()),
            search: None,
            show_secret_key: Some("true".to_string()),
        })
    );
}

#[test]
fn post_key_with_id_updates_instead_of_creating() {
    let r = parse(Method::Post, "/v1/key", Some("id=k9"));
    assert_eq!(r, Ok(Endpoint::UpdateKey { id: "k9".to_string() }));
}

#[test]
fn bucket_info_takes_id_or_global_alias() {
    let r = parse(Method::Get, "/v1/bucket", Some("globalAlias=mybucket"));
    assert_eq!(
        r,
        Ok(Endpoint::GetBucketInfo { id: None, global_alias: Some("mybucket".to_string()) })
    );
}

#[test]
fn alias_routes_require_their_parameters() {
    let r = parse(Method::Put, "/v1/bucket/alias/global", Some("id=b1&alias=a1"));
    assert_eq!(
        r,
        Ok(Endpoint::GlobalAliasBucket { id: "b1".to_string(), alias: "a1".to_string() })
    );
    let r = parse(Method::Put, "/v1/bucket/alias/local", Some("id=b1&accessKeyId=k1&alias=a1"));
    assert_eq!(
        r,
        Ok(Endpoint::LocalAliasBucket {
            id: "b1".to_string(),
            access_key_id: "k1".to_string(),
            alias: "a1".to_string(),
        })
    );
}

#[test]
fn missing_required_parameter_is_reported() {
    let r = parse(Method::Delete, "/v1/bucket", None);
    match r {
        Err(ApiError::BadRequest(m)) => assert_eq!(m, "Missing required query parameter"),
        other => panic!("expected a missing-parameter error, got {:?}", other),
    }
    let r = parse(Method::Put, "/v1/bucket/alias/global", Some("id=b1"));
    match r {
        Err(ApiError::BadRequest(m)) => assert_eq!(m, "Missing required query parameter"),
        other => panic!("expected a missing-parameter error, got {:?}", other),
    }
}

#[test]
fn unrecognized_paths_are_client_errors() {
    for (method, path) in [
        (Method::Get, "/nope"),
        (Method::Post, "/health"),
        (Method::Get, "/v1/nope"),
        (Method::Delete, "/v1/layout"),
        (Method::Get, "/v2/status"),
        (Method::Other, "/health"),
    ] {
        match parse(method, path, None) {
            Err(ApiError::BadRequest(m)) => assert_eq!(m, "Invalid API endpoint"),
            other => panic!("expected a client error for {path}, got {:?}", other),
        }
    }
}

#[test]
fn legacy_routes_parse_to_their_current_equivalents() {
    let cases: Vec<(Method, &str, Option<&str>)> = vec![
        (Method::Get, "/status", None),
        (Method::Post, "/connect", None),
        (Method::Get, "/layout", None),
        (Method::Post, "/layout", None),
        (Method::Post, "/layout/apply", None),
        (Method::Post, "/layout/revert", None),
        (Method::Get, "/key/list", None),
        (Method::Get, "/key", Some("id=k1")),
        (Method::Post, "/key", None),
        (Method::Post, "/key", Some("id=k1")),
        (Method::Post, "/key/import", None),
        (Method::Delete, "/key", Some("id=k1")),
        (Method::Get, "/bucket/list", None),
        (Method::Get, "/bucket", Some("id=b1")),
        (Method::Post, "/bucket", None),
        (Method::Delete, "/bucket", Some("id=b1")),
        (Method::Put, "/bucket", Some("id=b1")),
        (Method::Post, "/bucket/allow", None),
        (Method::Post, "/bucket/deny", None),
        (Method::Put, "/bucket/alias/global", Some("id=b1&alias=a1")),
        (Method::Delete, "/bucket/alias/global", Some("id=b1&alias=a1")),
        (Method::Put, "/bucket/alias/local", Some("id=b1&accessKeyId=k1&alias=a1")),
        (Method::Delete, "/bucket/alias/local", Some("id=b1&accessKeyId=k1&alias=a1")),
    ];
    for (method, suffix, query) in cases {
        let legacy = parse(method, &format!("/v0{suffix}"), query);
        let current = parse(method, &format!("/v1{suffix}"), query);
        assert!(legacy.is_ok(), "legacy route {suffix} failed: {:?}", legacy);
        assert_eq!(legacy, current, "mismatch on {suffix}");
    }
}

#[test]
fn legacy_namespace_has_no_cluster_health_route() {
    match parse(Method::Get, "/v0/health", None) {
        Err(ApiError::BadRequest(m)) => assert_eq!(m, "Invalid API endpoint"),
        other => panic!("expected a client error, got {:?}", other),
    }
    assert_eq!(parse(Method::Get, "/v1/health", None), Ok(Endpoint::GetClusterHealth));
}

#[test]
fn bare_version_prefixes_match_no_route() {
    for path in ["/v0/", "/v1/", "/v1", "/v0", "/", ""] {
        match parse(Method::Get, path, None) {
            Err(ApiError::BadRequest(m)) => assert_eq!(m, "Invalid API endpoint"),
            other => panic!("expected a client error for {path:?}, got {:?}", other),
        }
    }
}

#[test]
fn query_decoding_reaches_the_parser() {
    let r = parse(Method::Put, "/v1/bucket/alias/global", Some("id=b%31&alias=my+alias"));
    assert_eq!(
        r,
        Ok(Endpoint::GlobalAliasBucket { id: "b1".to_string(), alias: "my alias".to_string() })
    );
}

#[test]
fn endpoint_names_are_stable() {
    assert_eq!(Endpoint::Options.name(), "Options");
    assert_eq!(Endpoint::GetClusterStatus.name(), "GetClusterStatus");
    assert_eq!(Endpoint::UpdateKey { id: "k".to_string() }.name(), "UpdateKey");
}
