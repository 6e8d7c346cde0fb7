//! The top-level request handler: parse the request into an endpoint, enforce
//! the authorization policy, then answer locally (preflight, health, metrics,
//! domain check) or hand the endpoint on to the per-operation handlers of the
//! cluster runtime.

use vstd::prelude::*;

use crate::auth::{
    opt_view, spec_authorized, spec_denial_message, ServerSecrets,
};
use crate::endpoint::{
    endpoint_from_parts, spec_authorization_class, spec_failure_message, spec_parse_endpoint,
    Endpoint, EndpointView, Method, ParseFailure,
};
use crate::health::{handle_health, spec_health_body, spec_health_status_code, ClusterHealthStatus};
use crate::metrics::{handle_metrics, MetricsProvider};
use crate::query::{form_decoded, params_view, parse_query_params, spec_get_param};
use crate::response::{header_is, ApiError, HttpResponse};
use crate::vhost::{
    handle_check_domain_params, spec_check_domain, BucketDirectory, VhostConfig,
};

verus! {

/// What the dispatcher decided for one request: a finished response, or an
/// endpoint whose operation an external per-operation handler must perform
/// (the request already passed authorization).
#[derive(Clone, Debug, PartialEq, Eq)]
pub enum Dispatch {
    Done(HttpResponse),
    Delegated(Endpoint),
}

/// The CORS preflight answer: no content, and the fixed allow headers.
pub open spec fn spec_is_options_response(r: HttpResponse) -> bool {
    &&& r.status == 204
    &&& r.body@ == Seq::<char>::empty()
    &&& r.headers@.len() == 3
    &&& header_is(r.headers@[0], "Allow"@, "OPTIONS, GET, POST"@)
    &&& header_is(r.headers@[1], "Access-Control-Allow-Methods"@, "OPTIONS, GET, POST"@)
    &&& header_is(r.headers@[2], "Access-Control-Allow-Origin"@, "*"@)
}

/// The decoded view of an optional query string.
pub open spec fn spec_query_params(query: Option<&String>) -> Seq<(Seq<char>, Seq<char>)> {
    match query {
        Some(q) => form_decoded(q@),
        None => Seq::<(Seq<char>, Seq<char>)>::empty(),
    }
}

/// How a domain-check request must be answered, given the decoded query
/// parameters and the directory snapshot.
pub open spec fn spec_check_domain_dispatch(
    cfg: VhostConfig,
    dir: BucketDirectory,
    pv: Seq<(Seq<char>, Seq<char>)>,
    r: Result<Dispatch, ApiError>,
) -> bool {
    match spec_get_param(pv, "domain"@) {
        None => r matches Err(e) && e matches ApiError::BadRequest(m) && m@
            == "No domain query string found"@,
        Some(d) => match spec_check_domain(cfg, dir, d) {
            Err(_) => r matches Err(e) && e matches ApiError::InternalError(m) && m@
                == "Bucket alias resolved to a bucket that no longer exists"@,
            Ok(true) => r matches Ok(dd) && dd matches Dispatch::Done(resp) && resp.status == 200
                && resp.body@ == "Domain '"@ + d + "' is managed by Garage"@,
            Ok(false) => r matches Err(e) && e matches ApiError::BadRequest(m) && m@
                == "Domain '"@ + d + "' is not managed by Garage"@,
        },
    }
}

/// The administrative API server: the two secrets, the virtual-host
/// configuration, and the metrics capability. All immutable after startup and
/// shared read-only across concurrent requests.
pub struct AdminApiServer {
    pub secrets: ServerSecrets,
    pub vhost: VhostConfig,
    pub metrics: MetricsProvider,
}

impl AdminApiServer {
    /// Builds the server state once at startup, formatting each configured
    /// secret as the bearer credential the policy compares against.
    pub fn new(
        vhost: VhostConfig,
        metrics_secret: Option<String>,
        admin_secret: Option<String>,
        metrics: MetricsProvider,
    ) -> (s: Self)
        ensures
            s.vhost == vhost,
            s.metrics == metrics,
            s.secrets.metrics_token is Some <==> metrics_secret is Some,
            metrics_secret matches Some(t) ==> (s.secrets.metrics_token matches Some(e) && e@
                == "Bearer "@ + t@),
            s.secrets.admin_token is Some <==> admin_secret is Some,
            admin_secret matches Some(t) ==> (s.secrets.admin_token matches Some(e) && e@
                == "Bearer "@ + t@),
    {
        AdminApiServer { secrets: ServerSecrets::new(metrics_secret, admin_secret), vhost, metrics }
    }

    /// Answers the CORS preflight.
    pub fn handle_options(&self) -> (r: HttpResponse)
        ensures
            spec_is_options_response(r),
    {
        let mut headers: Vec<(String, String)> = Vec::new();
        headers.push((String::from_str("Allow"), String::from_str("OPTIONS, GET, POST")));
        headers.push(
            (
                String::from_str("Access-Control-Allow-Methods"),
                String::from_str("OPTIONS, GET, POST"),
            ),
        );
        headers.push((String::from_str("Access-Control-Allow-Origin"), String::from_str("*")));
        HttpResponse { status: 204, headers, body: String::new() }
    }

    /// Parses a request into its endpoint, or fails with a client error for
    /// an unrecognized path or method.
    pub fn parse_endpoint(&self, method: Method, path: &str, query: Option<&String>) -> (r: Result<
        Endpoint,
        ApiError,
    >)
        ensures
            ({
                let s = spec_parse_endpoint(method, path@, spec_query_params(query));
                match r {
                    Ok(e) => s == Ok::<EndpointView, ParseFailure>(e@),
                    Err(err) => s matches Err(f) && (err matches ApiError::BadRequest(m) && m@
                        == spec_failure_message(f)),
                }
            }),
    {
        let params: Vec<(String, String)> = match query {
            Some(q) => parse_query_params(q.as_str()),
            None => Vec::new(),
        };
        proof {
            assert(params_view(params@) =~= spec_query_params(query));
        }
        endpoint_from_parts(method, path, &params)
    }

    /// Dispatches one parsed request: enforces the authorization policy for
    /// the endpoint's class, then answers preflight, domain-check, health and
    /// metrics requests locally and hands every other endpoint on, untouched,
    /// for its external per-operation handler.
    pub fn handle(
        &self,
        endpoint: Endpoint,
        auth_header: Option<&String>,
        query: Option<&String>,
        health: ClusterHealthStatus,
        directory: &BucketDirectory,
    ) -> (r: Result<Dispatch, ApiError>)
        ensures
            ({
                let cls = spec_authorization_class(endpoint@);
                let hv = opt_view(auth_header);
                &&& (r is Ok ==> spec_authorized(self.secrets, cls, hv))
                &&& (!spec_authorized(self.secrets, cls, hv) ==> (r matches Err(e)
                    && e matches ApiError::Forbidden(m) && m@ == spec_denial_message(
                    self.secrets,
                    cls,
                    hv,
                )))
                &&& (spec_authorized(self.secrets, cls, hv) ==> match endpoint@ {
                    EndpointView::Options => r matches Ok(d) && d matches Dispatch::Done(resp)
                        && spec_is_options_response(resp),
                    EndpointView::CheckDomain => spec_check_domain_dispatch(
                        self.vhost,
                        *directory,
                        spec_query_params(query),
                        r,
                    ),
                    EndpointView::Health => r matches Ok(d) && d matches Dispatch::Done(resp)
                        && resp.status == spec_health_status_code(health) && resp.body@
                        == spec_health_body(health),
                    EndpointView::Metrics => {
                        &&& (self.metrics is Disabled ==> (r matches Err(e)
                            && e matches ApiError::BadRequest(m) && m@
                            == "Garage was built without the metrics feature"@))
                        &&& (self.metrics is Prometheus ==> ((r matches Ok(d)
                            && d matches Dispatch::Done(resp) && resp.status == 200
                            && resp.headers@.len() == 1 && header_is(
                            resp.headers@[0],
                            "Content-Type"@,
                            "text/plain; version=0.0.4"@,
                        )) || (r matches Err(e) && e matches ApiError::InternalError(m) && m@
                            == "Could not serialize metrics"@)))
                    },
                    _ => r == Ok::<Dispatch, ApiError>(Dispatch::Delegated(endpoint)),
                })
            }),
    {
        let class = endpoint.authorization_type();
        if let Err(e) = self.secrets.check_authorization(class, auth_header) {
            return Err(e);
        }
        match endpoint {
            Endpoint::Options => Ok(Dispatch::Done(self.handle_options())),
            Endpoint::CheckDomain => {
                let params: Vec<(String, String)> = match query {
                    Some(q) => parse_query_params(q.as_str()),
                    None => Vec::new(),
                };
                proof {
                    assert(params_view(params@) =~= spec_query_params(query));
                }
                match handle_check_domain_params(&self.vhost, directory, &params) {
                    Ok(resp) => Ok(Dispatch::Done(resp)),
                    Err(e) => Err(e),
                }
            },
            Endpoint::Health => Ok(Dispatch::Done(handle_health(health))),
            Endpoint::Metrics => match handle_metrics(&self.metrics) {
                Ok(resp) => Ok(Dispatch::Done(resp)),
                Err(e) => Err(e),
            },
            other => Ok(Dispatch::Delegated(other)),
        }
    }
}

} // verus!
