//! Mapping of the internal cluster health state into the externally
//! observable HTTP status and plain-text message.

use vstd::prelude::*;

use crate::response::{header_is, HttpResponse};

verus! {

/// Health of the cluster as reported by the cluster runtime; the gateway only
/// reads it.
#[derive(Clone, Copy, Debug, PartialEq, Eq, Structural)]
pub enum ClusterHealthStatus {
    Healthy,
    Degraded,
    Unavailable,
}

/// HTTP status code for each health state. The mapping is exhaustive: a new
/// health state must extend it, there is no default branch.
pub open spec fn spec_health_status_code(h: ClusterHealthStatus) -> u16 {
    match h {
        ClusterHealthStatus::Healthy => 200u16,
        ClusterHealthStatus::Degraded => 200u16,
        ClusterHealthStatus::Unavailable => 503u16,
    }
}

/// Human-readable summary for each health state.
pub open spec fn spec_health_summary(h: ClusterHealthStatus) -> Seq<char> {
    match h {
        ClusterHealthStatus::Healthy => "Garage is fully operational"@,
        ClusterHealthStatus::Degraded => "Garage is operational but some storage nodes are unavailable"@,
        ClusterHealthStatus::Unavailable => "Quorum is not available for some/all partitions, reads and writes will fail"@,
    }
}

/// Full response body: the summary followed by a fixed pointer to the richer
/// health-detail endpoint.
pub open spec fn spec_health_body(h: ClusterHealthStatus) -> Seq<char> {
    spec_health_summary(h)
        + "\nConsult the full health check API endpoint at /v1/health for more details\n"@
}

/// Maps the cluster health into the response of `GET /health`: the
/// status code and body are functions of the health state alone.
pub fn handle_health(health: ClusterHealthStatus) -> (r: HttpResponse)
    ensures
        r.status == spec_health_status_code(health),
        r.body@ == spec_health_body(health),
        r.headers@.len() == 1,
        header_is(r.headers@[0], "Content-Type"@, "text/plain"@),
{
    let (status, summary): (u16, String) = match health {
        ClusterHealthStatus::Healthy => (200, String::from_str("Garage is fully operational")),
        ClusterHealthStatus::Degraded => (
            200,
            String::from_str("Garage is operational but some storage nodes are unavailable"),
        ),
        ClusterHealthStatus::Unavailable => (
            503,
            String::from_str(
                "Quorum is not available for some/all partitions, reads and writes will fail",
            ),
        ),
    };
    let body = summary.concat(
        "\nConsult the full health check API endpoint at /v1/health for more details\n",
    );
    let mut headers: Vec<(String, String)> = Vec::new();
    headers.push((String::from_str("Content-Type"), String::from_str("text/plain")));
    HttpResponse { status, headers, body }
}

/// Repeated health requests against an unchanged cluster state are answered
/// identically: status and body are determined by the health state alone.
pub proof fn lemma_health_idempotent(h1: ClusterHealthStatus, h2: ClusterHealthStatus)
    requires
        h1 == h2,
    ensures
        spec_health_status_code(h1) == spec_health_status_code(h2),
        spec_health_body(h1) == spec_health_body(h2),
{
}

} // verus!
