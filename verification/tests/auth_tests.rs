//! Authorization policy behavior: class lookup, fail-closed admin access,
//! and exact header comparison after trimming.

use admin_gateway::auth::AuthorizationClass;
use admin_gateway::endpoint::{Endpoint, Method};
use admin_gateway::gateway::{AdminApiServer, Dispatch};
use admin_gateway::health::ClusterHealthStatus;
use admin_gateway::metrics::MetricsProvider;
use admin_gateway::response::ApiError;
use admin_gateway::vhost::{BucketDirectory, VhostConfig};

fn server(metrics_secret: Option<&str>, admin_secret: Option<&str>) -> AdminApiServer {
    AdminApiServer::new(
        VhostConfig { root_domain: None, website_root_domain: None },
        metrics_secret.map(|s| s.to_string()),
        admin_secret.map(|s| s.to_string()),
        MetricsProvider::Disabled,
    )
}

fn empty_directory() -> BucketDirectory {
    BucketDirectory { aliases: Vec::new(), buckets: Vec::new() }
}

fn run(
    server: &AdminApiServer,
    endpoint: Endpoint,
    header: Option<&str>,
) -> Result<Dispatch, ApiError> {
    let header_string = header.map(|h| h.to_string());
    server.handle(
        endpoint,
        header_string.as_ref(),
        None,
        ClusterHealthStatus::Healthy,
        &empty_directory(),
    )
}

#[test]
fn authorization_class_is_total_and_deterministic() {
    let endpoints = [
        (Endpoint::Options, AuthorizationClass::Open),
        (Endpoint::CheckDomain, AuthorizationClass::Open),
        (Endpoint::Health, AuthorizationClass::Open),
        (Endpoint::Metrics, AuthorizationClass::MetricsRestricted),
        (Endpoint::GetClusterStatus, AuthorizationClass::AdminRestricted),
        (Endpoint::GetClusterHealth, AuthorizationClass::AdminRestricted),
        (Endpoint::ConnectClusterNodes, AuthorizationClass::AdminRestricted),
        (Endpoint::GetClusterLayout, AuthorizationClass::AdminRestricted),
        (Endpoint::UpdateClusterLayout, AuthorizationClass::AdminRestricted),
        (Endpoint::ApplyClusterLayout, AuthorizationClass::AdminRestricted),
        (Endpoint::RevertClusterLayout, AuthorizationClass::AdminRestricted),
        (Endpoint::ListKeys, AuthorizationClass::AdminRestricted),
        (Endpoint::CreateKey, AuthorizationClass::AdminRestricted),
        (Endpoint::ImportKey, AuthorizationClass::AdminRestricted),
        (Endpoint::UpdateKey { id: "k".to_string() }, AuthorizationClass::AdminRestricted),
        (Endpoint::DeleteKey { id: "k".to_string() }, AuthorizationClass::AdminRestricted),
        (Endpoint::ListBuckets, AuthorizationClass::AdminRestricted),
        (Endpoint::CreateBucket, AuthorizationClass::AdminRestricted),
        (Endpoint::DeleteBucket { id: "b".to_string() }, AuthorizationClass::AdminRestricted),
        (Endpoint::UpdateBucket { id: "b".to_string() }, AuthorizationClass::AdminRestricted),
        (Endpoint::BucketAllowKey, AuthorizationClass::AdminRestricted),
        (Endpoint::BucketDenyKey, AuthorizationClass::AdminRestricted),
    ];
    for (endpoint, expected) in endpoints {
        let first = endpoint.authorization_type();
        let second = endpoint.authorization_type();
        assert_eq!(first, expected);
        assert_eq!(first, second);
    }
    let info = Endpoint::GetKeyInfo { id: None, search: None, show_secret_key: None };
    assert_eq!(info.authorization_type(), AuthorizationClass::AdminRestricted);
}

#[test]
fn admin_unset_is_denied_even_with_matching_metrics_token() {
    let s = server(Some("mtok"), None);
    let r = run(&s, Endpoint::GetClusterStatus, Some("Bearer mtok"));
    match r {
        Err(ApiError::Forbidden(m)) => assert_eq!(
            m,
            "Admin token isn't configured, admin API access is disabled for security."
        ),
        other => panic!("expected the disabled-service denial, got {:?}", other),
    }
}

#[test]
fn admin_unset_is_denied_without_header_too() {
    let s = server(None, None);
    let r = run(&s, Endpoint::ListBuckets, None);
    match r {
        Err(ApiError::Forbidden(m)) => assert_eq!(
            m,
            "Admin token isn't configured, admin API access is disabled for security."
        ),
        other => panic!("expected the disabled-service denial, got {:?}", other),
    }
}

#[test]
fn trailing_whitespace_in_header_is_accepted() {
    let s = server(None, Some("abc"));
    let r = run(&s, Endpoint::GetClusterStatus, Some("Bearer abc "));
    assert_eq!(r, Ok(Dispatch::Delegated(Endpoint::GetClusterStatus)));
}

#[test]
fn case_differing_scheme_is_rejected() {
    let s = server(None, Some("abc"));
    let r = run(&s, Endpoint::GetClusterStatus, Some("bearer abc"));
    match r {
        Err(ApiError::Forbidden(m)) => {
            assert_eq!(m, "Invalid authorization token provided");
        },
        other => panic!("expected an invalid-token denial, got {:?}", other),
    }
}

#[test]
fn missing_header_is_its_own_denial() {
    let s = server(None, Some("abc"));
    let r = run(&s, Endpoint::GetClusterStatus, None);
    match r {
        Err(ApiError::Forbidden(m)) => assert_eq!(m, "Authorization token must be provided"),
        other => panic!("expected a missing-token denial, got {:?}", other),
    }
}

#[test]
fn wrong_token_is_rejected() {
    let s = server(None, Some("abc"));
    let r = run(&s, Endpoint::GetClusterStatus, Some("Bearer xyz"));
    match r {
        Err(ApiError::Forbidden(m)) => assert_eq!(m, "Invalid authorization token provided"),
        other => panic!("expected an invalid-token denial, got {:?}", other),
    }
}

#[test]
fn admin_token_does_not_open_metrics_when_metrics_token_differs() {
    let s = server(Some("mtok"), Some("atok"));
    let r = run(&s, Endpoint::Metrics, Some("Bearer atok"));
    match r {
        Err(ApiError::Forbidden(m)) => assert_eq!(m, "Invalid authorization token provided"),
        other => panic!("expected an invalid-token denial, got {:?}", other),
    }
}

#[test]
fn metrics_without_configured_token_is_open() {
    let s = server(None, None);
    let r = run(&s, Endpoint::Metrics, Some("Bearer anything"));
    match r {
        Err(ApiError::BadRequest(m)) => {
            assert_eq!(m, "Garage was built without the metrics feature");
        },
        other => panic!("expected the metrics gate, got {:?}", other),
    }
}

#[test]
fn correct_metrics_token_reaches_the_gate() {
    let s = server(Some("mtok"), None);
    let r = run(&s, Endpoint::Metrics, Some("Bearer mtok"));
    match r {
        Err(ApiError::BadRequest(m)) => {
            assert_eq!(m, "Garage was built without the metrics feature");
        },
        other => panic!("expected the metrics gate, got {:?}", other),
    }
}

#[test]
fn whitespace_only_header_is_rejected() {
    let s = server(None, Some("abc"));
    let r = run(&s, Endpoint::GetClusterStatus, Some(" \t "));
    match r {
        Err(ApiError::Forbidden(m)) => assert_eq!(m, "Invalid authorization token provided"),
        other => panic!("expected an invalid-token denial, got {:?}", other),
    }
}

#[test]
fn open_endpoints_ignore_garbage_headers() {
    let s = server(Some("mtok"), Some("atok"));
    let r = run(&s, Endpoint::Health, Some("not a bearer header at all"));
    match r {
        Ok(Dispatch::Done(resp)) => assert_eq!(resp.status, 200),
        other => panic!("expected a health response, got {:?}", other),
    }
}

#[test]
fn exact_match_after_trimming_is_accepted() {
    let s = server(None, Some("abc"));
    let r = run(&s, Endpoint::GetClusterStatus, Some("  Bearer abc\t"));
    assert_eq!(r, Ok(Dispatch::Delegated(Endpoint::GetClusterStatus)));
}

#[test]
fn inner_whitespace_is_not_trimmed() {
    let s = server(None, Some("abc"));
    let r = run(&s, Endpoint::GetClusterStatus, Some("Bearer  abc"));
    match r {
        Err(ApiError::Forbidden(m)) => assert_eq!(m, "Invalid authorization token provided"),
        other => panic!("expected an invalid-token denial, got {:?}", other),
    }
}
