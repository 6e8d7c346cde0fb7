//! The closed set of administrative endpoints, their sensitivity classes,
//! and the total parser from request method, path and query parameters.
//!
//! Two path namespaces coexist: the current one (`/v1/...` plus a few
//! unprefixed special paths) and a legacy one (`/v0/...`). Legacy paths are
//! parsed against their own variant set and carried into the current
//! representation by a total mapping before dispatch.

use vstd::prelude::*;

use crate::auth::AuthorizationClass;
use crate::query::{get_param, params_view, spec_get_param};
use crate::response::ApiError;
use crate::strutil::{str_eq, str_has_prefix};

verus! {

/// HTTP request method, as far as the gateway distinguishes them.
#[derive(Clone, Copy, Debug, PartialEq, Eq, Structural)]
pub enum Method {
    Get,
    Post,
    Put,
    Delete,
    Options,
    Other,
}

/// One administrative operation, with the path and query parameters it
/// needs. Immutable once parsed; lives for one request.
#[derive(Clone, Debug, PartialEq, Eq)]
pub enum Endpoint {
    Options,
    CheckDomain,
    Health,
    Metrics,
    GetClusterStatus,
    GetClusterHealth,
    ConnectClusterNodes,
    GetClusterLayout,
    UpdateClusterLayout,
    ApplyClusterLayout,
    RevertClusterLayout,
    ListKeys,
    GetKeyInfo { id: Option<String>, search: Option<String>, show_secret_key: Option<String> },
    CreateKey,
    ImportKey,
    UpdateKey { id: String },
    DeleteKey { id: String },
    ListBuckets,
    GetBucketInfo { id: Option<String>, global_alias: Option<String> },
    CreateBucket,
    DeleteBucket { id: String },
    UpdateBucket { id: String },
    BucketAllowKey,
    BucketDenyKey,
    GlobalAliasBucket { id: String, alias: String },
    GlobalUnaliasBucket { id: String, alias: String },
    LocalAliasBucket { id: String, access_key_id: String, alias: String },
    LocalUnaliasBucket { id: String, access_key_id: String, alias: String },
}

/// Mathematical model of an endpoint: the same variants over character
/// sequences.
pub enum EndpointView {
    Options,
    CheckDomain,
    Health,
    Metrics,
    GetClusterStatus,
    GetClusterHealth,
    ConnectClusterNodes,
    GetClusterLayout,
    UpdateClusterLayout,
    ApplyClusterLayout,
    RevertClusterLayout,
    ListKeys,
    GetKeyInfo {
        id: Option<Seq<char>>,
        search: Option<Seq<char>>,
        show_secret_key: Option<Seq<char>>,
    },
    CreateKey,
    ImportKey,
    UpdateKey { id: Seq<char> },
    DeleteKey { id: Seq<char> },
    ListBuckets,
    GetBucketInfo { id: Option<Seq<char>>, global_alias: Option<Seq<char>> },
    CreateBucket,
    DeleteBucket { id: Seq<char> },
    UpdateBucket { id: Seq<char> },
    BucketAllowKey,
    BucketDenyKey,
    GlobalAliasBucket { id: Seq<char>, alias: Seq<char> },
    GlobalUnaliasBucket { id: Seq<char>, alias: Seq<char> },
    LocalAliasBucket { id: Seq<char>, access_key_id: Seq<char>, alias: Seq<char> },
    LocalUnaliasBucket { id: Seq<char>, access_key_id: Seq<char>, alias: Seq<char> },
}

/// View of an optional owned string.
pub open spec fn opt_string_view(o: Option<String>) -> Option<Seq<char>> {
    match o {
        Some(s) => Some(s@),
        None => None,
    }
}

impl View for Endpoint {
    type V = EndpointView;

    open spec fn view(&self) -> EndpointView {
        match self {
            Endpoint::Options => EndpointView::Options,
            Endpoint::CheckDomain => EndpointView::CheckDomain,
            Endpoint::Health => EndpointView::Health,
            Endpoint::Metrics => EndpointView::Metrics,
            Endpoint::GetClusterStatus => EndpointView::GetClusterStatus,
            Endpoint::GetClusterHealth => EndpointView::GetClusterHealth,
            Endpoint::ConnectClusterNodes => EndpointView::ConnectClusterNodes,
            Endpoint::GetClusterLayout => EndpointView::GetClusterLayout,
            Endpoint::UpdateClusterLayout => EndpointView::UpdateClusterLayout,
            Endpoint::ApplyClusterLayout => EndpointView::ApplyClusterLayout,
            Endpoint::RevertClusterLayout => EndpointView::RevertClusterLayout,
            Endpoint::ListKeys => EndpointView::ListKeys,
            Endpoint::GetKeyInfo { id, search, show_secret_key } => EndpointView::GetKeyInfo {
                id: opt_string_view(*id),
                search: opt_string_view(*search),
                show_secret_key: opt_string_view(*show_secret_key),
            },
            Endpoint::CreateKey => EndpointView::CreateKey,
            Endpoint::ImportKey => EndpointView::ImportKey,
            Endpoint::UpdateKey { id } => EndpointView::UpdateKey { id: id@ },
            Endpoint::DeleteKey { id } => EndpointView::DeleteKey { id: id@ },
            Endpoint::ListBuckets => EndpointView::ListBuckets,
            Endpoint::GetBucketInfo { id, global_alias } => EndpointView::GetBucketInfo {
                id: opt_string_view(*id),
                global_alias: opt_string_view(*global_alias),
            },
            Endpoint::CreateBucket => EndpointView::CreateBucket,
            Endpoint::DeleteBucket { id } => EndpointView::DeleteBucket { id: id@ },
            Endpoint::UpdateBucket { id } => EndpointView::UpdateBucket { id: id@ },
            Endpoint::BucketAllowKey => EndpointView::BucketAllowKey,
            Endpoint::BucketDenyKey => EndpointView::BucketDenyKey,
            Endpoint::GlobalAliasBucket { id, alias } => EndpointView::GlobalAliasBucket {
                id: id@,
                alias: alias@,
            },
            Endpoint::GlobalUnaliasBucket { id, alias } => EndpointView::GlobalUnaliasBucket {
                id: id@,
                alias: alias@,
            },
            Endpoint::LocalAliasBucket { id, access_key_id, alias } => EndpointView::LocalAliasBucket {
                id: id@,
                access_key_id: access_key_id@,
                alias: alias@,
            },
            Endpoint::LocalUnaliasBucket { id, access_key_id, alias } => EndpointView::LocalUnaliasBucket {
                id: id@,
                access_key_id: access_key_id@,
                alias: alias@,
            },
        }
    }
}

/// Why a request failed to parse into an endpoint.
#[derive(Clone, Copy, Debug, PartialEq, Eq, Structural)]
pub enum ParseFailure {
    /// No route matches the method and path.
    UnknownRoute,
    /// The route matches but a required query parameter is absent.
    MissingParameter,
}

/// The client-error message reported for each parse failure.
pub open spec fn spec_failure_message(f: ParseFailure) -> Seq<char> {
    match f {
        ParseFailure::UnknownRoute => "Invalid API endpoint"@,
        ParseFailure::MissingParameter => "Missing required query parameter"@,
    }
}

/// The sensitivity class of each endpoint: a static, total mapping.
pub open spec fn spec_authorization_class(e: EndpointView) -> AuthorizationClass {
    match e {
        EndpointView::Options => AuthorizationClass::Open,
        EndpointView::CheckDomain => AuthorizationClass::Open,
        EndpointView::Health => AuthorizationClass::Open,
        EndpointView::Metrics => AuthorizationClass::MetricsRestricted,
        _ => AuthorizationClass::AdminRestricted,
    }
}

/// The class lookup is total — the mapping above covers every variant — and
/// deterministic: equal endpoint values are assigned the same class, however
/// often it is consulted.
pub proof fn lemma_class_lookup_deterministic(e1: EndpointView, e2: EndpointView)
    requires
        e1 == e2,
    ensures
        spec_authorization_class(e1) == spec_authorization_class(e2),
{
}

/// The stable name of each endpoint variant, as used for tracing.
pub open spec fn spec_endpoint_name(e: EndpointView) -> Seq<char> {
    match e {
        EndpointView::Options => "Options"@,
        EndpointView::CheckDomain => "CheckDomain"@,
        EndpointView::Health => "Health"@,
        EndpointView::Metrics => "Metrics"@,
        EndpointView::GetClusterStatus => "GetClusterStatus"@,
        EndpointView::GetClusterHealth => "GetClusterHealth"@,
        EndpointView::ConnectClusterNodes => "ConnectClusterNodes"@,
        EndpointView::GetClusterLayout => "GetClusterLayout"@,
        EndpointView::UpdateClusterLayout => "UpdateClusterLayout"@,
        EndpointView::ApplyClusterLayout => "ApplyClusterLayout"@,
        EndpointView::RevertClusterLayout => "RevertClusterLayout"@,
        EndpointView::ListKeys => "ListKeys"@,
        EndpointView::GetKeyInfo { .. } => "GetKeyInfo"@,
        EndpointView::CreateKey => "CreateKey"@,
        EndpointView::ImportKey => "ImportKey"@,
        EndpointView::UpdateKey { .. } => "UpdateKey"@,
        EndpointView::DeleteKey { .. } => "DeleteKey"@,
        EndpointView::ListBuckets => "ListBuckets"@,
        EndpointView::GetBucketInfo { .. } => "GetBucketInfo"@,
        EndpointView::CreateBucket => "CreateBucket"@,
        EndpointView::DeleteBucket { .. } => "DeleteBucket"@,
        EndpointView::UpdateBucket { .. } => "UpdateBucket"@,
        EndpointView::BucketAllowKey => "BucketAllowKey"@,
        EndpointView::BucketDenyKey => "BucketDenyKey"@,
        EndpointView::GlobalAliasBucket { .. } => "GlobalAliasBucket"@,
        EndpointView::GlobalUnaliasBucket { .. } => "GlobalUnaliasBucket"@,
        EndpointView::LocalAliasBucket { .. } => "LocalAliasBucket"@,
        EndpointView::LocalUnaliasBucket { .. } => "LocalUnaliasBucket"@,
    }
}

impl Endpoint {
    /// The name of this endpoint's variant.
    pub fn name(&self) -> (n: &'static str)
        ensures
            n@ == spec_endpoint_name(self@),
    {
        match self {
            Endpoint::Options => "Options",
            Endpoint::CheckDomain => "CheckDomain",
            Endpoint::Health => "Health",
            Endpoint::Metrics => "Metrics",
            Endpoint::GetClusterStatus => "GetClusterStatus",
            Endpoint::GetClusterHealth => "GetClusterHealth",
            Endpoint::ConnectClusterNodes => "ConnectClusterNodes",
            Endpoint::GetClusterLayout => "GetClusterLayout",
            Endpoint::UpdateClusterLayout => "UpdateClusterLayout",
            Endpoint::ApplyClusterLayout => "ApplyClusterLayout",
            Endpoint::RevertClusterLayout => "RevertClusterLayout",
            Endpoint::ListKeys => "ListKeys",
            Endpoint::GetKeyInfo { .. } => "GetKeyInfo",
            Endpoint::CreateKey => "CreateKey",
            Endpoint::ImportKey => "ImportKey",
            Endpoint::UpdateKey { .. } => "UpdateKey",
            Endpoint::DeleteKey { .. } => "DeleteKey",
            Endpoint::ListBuckets => "ListBuckets",
            Endpoint::GetBucketInfo { .. } => "GetBucketInfo",
            Endpoint::CreateBucket => "CreateBucket",
            Endpoint::DeleteBucket { .. } => "DeleteBucket",
            Endpoint::UpdateBucket { .. } => "UpdateBucket",
            Endpoint::BucketAllowKey => "BucketAllowKey",
            Endpoint::BucketDenyKey => "BucketDenyKey",
            Endpoint::GlobalAliasBucket { .. } => "GlobalAliasBucket",
            Endpoint::GlobalUnaliasBucket { .. } => "GlobalUnaliasBucket",
            Endpoint::LocalAliasBucket { .. } => "LocalAliasBucket",
            Endpoint::LocalUnaliasBucket { .. } => "LocalUnaliasBucket",
        }
    }

    /// The sensitivity class this endpoint is authorized under.
    pub fn authorization_type(&self) -> (c: AuthorizationClass)
        ensures
            c == spec_authorization_class(self@),
    {
        match self {
            Endpoint::Options => AuthorizationClass::Open,
            Endpoint::CheckDomain => AuthorizationClass::Open,
            Endpoint::Health => AuthorizationClass::Open,
            Endpoint::Metrics => AuthorizationClass::MetricsRestricted,
            _ => AuthorizationClass::AdminRestricted,
        }
    }
}

/// The legacy variant set: every operation the legacy namespace offers. The
/// legacy namespace predates the cluster-health endpoint, which is the one
/// current admin route it lacks.
pub enum EndpointV0 {
    GetClusterStatus,
    ConnectClusterNodes,
    GetClusterLayout,
    UpdateClusterLayout,
    ApplyClusterLayout,
    RevertClusterLayout,
    ListKeys,
    GetKeyInfo {
        id: Option<Seq<char>>,
        search: Option<Seq<char>>,
        show_secret_key: Option<Seq<char>>,
    },
    CreateKey,
    ImportKey,
    UpdateKey { id: Seq<char> },
    DeleteKey { id: Seq<char> },
    ListBuckets,
    GetBucketInfo { id: Option<Seq<char>>, global_alias: Option<Seq<char>> },
    CreateBucket,
    DeleteBucket { id: Seq<char> },
    UpdateBucket { id: Seq<char> },
    BucketAllowKey,
    BucketDenyKey,
    GlobalAliasBucket { id: Seq<char>, alias: Seq<char> },
    GlobalUnaliasBucket { id: Seq<char>, alias: Seq<char> },
    LocalAliasBucket { id: Seq<char>, access_key_id: Seq<char>, alias: Seq<char> },
    LocalUnaliasBucket { id: Seq<char>, access_key_id: Seq<char>, alias: Seq<char> },
}

/// The total mapping from the legacy variant set into the current one.
pub open spec fn spec_from_v0(e: EndpointV0) -> EndpointView {
    match e {
        EndpointV0::GetClusterStatus => EndpointView::GetClusterStatus,
        EndpointV0::ConnectClusterNodes => EndpointView::ConnectClusterNodes,
        EndpointV0::GetClusterLayout => EndpointView::GetClusterLayout,
        EndpointV0::UpdateClusterLayout => EndpointView::UpdateClusterLayout,
        EndpointV0::ApplyClusterLayout => EndpointView::ApplyClusterLayout,
        EndpointV0::RevertClusterLayout => EndpointView::RevertClusterLayout,
        EndpointV0::ListKeys => EndpointView::ListKeys,
        EndpointV0::GetKeyInfo { id, search, show_secret_key } => EndpointView::GetKeyInfo {
            id,
            search,
            show_secret_key,
        },
        EndpointV0::CreateKey => EndpointView::CreateKey,
        EndpointV0::ImportKey => EndpointView::ImportKey,
        EndpointV0::UpdateKey { id } => EndpointView::UpdateKey { id },
        EndpointV0::DeleteKey { id } => EndpointView::DeleteKey { id },
        EndpointV0::ListBuckets => EndpointView::ListBuckets,
        EndpointV0::GetBucketInfo { id, global_alias } => EndpointView::GetBucketInfo {
            id,
            global_alias,
        },
        EndpointV0::CreateBucket => EndpointView::CreateBucket,
        EndpointV0::DeleteBucket { id } => EndpointView::DeleteBucket { id },
        EndpointV0::UpdateBucket { id } => EndpointView::UpdateBucket { id },
        EndpointV0::BucketAllowKey => EndpointView::BucketAllowKey,
        EndpointV0::BucketDenyKey => EndpointView::BucketDenyKey,
        EndpointV0::GlobalAliasBucket { id, alias } => EndpointView::GlobalAliasBucket {
            id,
            alias,
        },
        EndpointV0::GlobalUnaliasBucket { id, alias } => EndpointView::GlobalUnaliasBucket {
            id,
            alias,
        },
        EndpointV0::LocalAliasBucket { id, access_key_id, alias } => EndpointView::LocalAliasBucket {
            id,
            access_key_id,
            alias,
        },
        EndpointV0::LocalUnaliasBucket {
            id,
            access_key_id,
            alias,
        } => EndpointView::LocalUnaliasBucket { id, access_key_id, alias },
    }
}

/// The admin route table of the current namespace, over the path with the
/// version prefix stripped (keeping its leading slash).
pub open spec fn spec_parse_admin(
    m: Method,
    sub: Seq<char>,
    params: Seq<(Seq<char>, Seq<char>)>,
) -> Result<EndpointView, ParseFailure> {
    if m == Method::Get && sub == "/status"@ {
        Ok(EndpointView::GetClusterStatus)
    } else if m == Method::Get && sub == "/health"@ {
        Ok(EndpointView::GetClusterHealth)
    } else if m == Method::Post && sub == "/connect"@ {
        Ok(EndpointView::ConnectClusterNodes)
    } else if m == Method::Get && sub == "/layout"@ {
        Ok(EndpointView::GetClusterLayout)
    } else if m == Method::Post && sub == "/layout"@ {
        Ok(EndpointView::UpdateClusterLayout)
    } else if m == Method::Post && sub == "/layout/apply"@ {
        Ok(EndpointView::ApplyClusterLayout)
    } else if m == Method::Post && sub == "/layout/revert"@ {
        Ok(EndpointView::RevertClusterLayout)
    } else if m == Method::Get && sub == "/key/list"@ {
        Ok(EndpointView::ListKeys)
    } else if m == Method::Get && sub == "/key"@ {
        Ok(
            EndpointView::GetKeyInfo {
                id: spec_get_param(params, "id"@),
                search: spec_get_param(params, "search"@),
                show_secret_key: spec_get_param(params, "showSecretKey"@),
            },
        )
    } else if m == Method::Post && sub == "/key/import"@ {
        Ok(EndpointView::ImportKey)
    } else if m == Method::Post && sub == "/key"@ {
        match spec_get_param(params, "id"@) {
            Some(id) => Ok(EndpointView::UpdateKey { id }),
            None => Ok(EndpointView::CreateKey),
        }
    } else if m == Method::Delete && sub == "/key"@ {
        match spec_get_param(params, "id"@) {
            Some(id) => Ok(EndpointView::DeleteKey { id }),
            None => Err(ParseFailure::MissingParameter),
        }
    } else if m == Method::Get && sub == "/bucket/list"@ {
        Ok(EndpointView::ListBuckets)
    } else if m == Method::Get && sub == "/bucket"@ {
        Ok(
            EndpointView::GetBucketInfo {
                id: spec_get_param(params, "id"@),
                global_alias: spec_get_param(params, "globalAlias"@),
            },
        )
    } else if m == Method::Post && sub == "/bucket"@ {
        Ok(EndpointView::CreateBucket)
    } else if m == Method::Delete && sub == "/bucket"@ {
        match spec_get_param(params, "id"@) {
            Some(id) => Ok(EndpointView::DeleteBucket { id }),
            None => Err(ParseFailure::MissingParameter),
        }
    } else if m == Method::Put && sub == "/bucket"@ {
        match spec_get_param(params, "id"@) {
            Some(id) => Ok(EndpointView::UpdateBucket { id }),
            None => Err(ParseFailure::MissingParameter),
        }
    } else if m == Method::Post && sub == "/bucket/allow"@ {
        Ok(EndpointView::BucketAllowKey)
    } else if m == Method::Post && sub == "/bucket/deny"@ {
        Ok(EndpointView::BucketDenyKey)
    } else if m == Method::Put && sub == "/bucket/alias/global"@ {
        match (spec_get_param(params, "id"@), spec_get_param(params, "alias"@)) {
            (Some(id), Some(alias)) => Ok(EndpointView::GlobalAliasBucket { id, alias }),
            _ => Err(ParseFailure::MissingParameter),
        }
    } else if m == Method::Delete && sub == "/bucket/alias/global"@ {
        match (spec_get_param(params, "id"@), spec_get_param(params, "alias"@)) {
            (Some(id), Some(alias)) => Ok(EndpointView::GlobalUnaliasBucket { id, alias }),
            _ => Err(ParseFailure::MissingParameter),
        }
    } else if m == Method::Put && sub == "/bucket/alias/local"@ {
        match (
            spec_get_param(params, "id"@),
            spec_get_param(params, "accessKeyId"@),
            spec_get_param(params, "alias"@),
        ) {
            (Some(id), Some(access_key_id), Some(alias)) => Ok(
                EndpointView::LocalAliasBucket { id, access_key_id, alias },
            ),
            _ => Err(ParseFailure::MissingParameter),
        }
    } else if m == Method::Delete && sub == "/bucket/alias/local"@ {
        match (
            spec_get_param(params, "id"@),
            spec_get_param(params, "accessKeyId"@),
            spec_get_param(params, "alias"@),
        ) {
            (Some(id), Some(access_key_id), Some(alias)) => Ok(
                EndpointView::LocalUnaliasBucket { id, access_key_id, alias },
            ),
            _ => Err(ParseFailure::MissingParameter),
        }
    } else {
        Err(ParseFailure::UnknownRoute)
    }
}

/// The legacy admin route table: the same routes, except that the legacy
/// namespace has no cluster-health endpoint.
pub open spec fn spec_parse_v0(
    m: Method,
    sub: Seq<char>,
    params: Seq<(Seq<char>, Seq<char>)>,
) -> Result<EndpointV0, ParseFailure> {
    if m == Method::Get && sub == "/health"@ {
        Err(ParseFailure::UnknownRoute)
    } else {
        match spec_parse_admin(m, sub, params) {
            Ok(EndpointView::GetClusterStatus) => Ok(EndpointV0::GetClusterStatus),
            Ok(EndpointView::ConnectClusterNodes) => Ok(EndpointV0::ConnectClusterNodes),
            Ok(EndpointView::GetClusterLayout) => Ok(EndpointV0::GetClusterLayout),
            Ok(EndpointView::UpdateClusterLayout) => Ok(EndpointV0::UpdateClusterLayout),
            Ok(EndpointView::ApplyClusterLayout) => Ok(EndpointV0::ApplyClusterLayout),
            Ok(EndpointView::RevertClusterLayout) => Ok(EndpointV0::RevertClusterLayout),
            Ok(EndpointView::ListKeys) => Ok(EndpointV0::ListKeys),
            Ok(EndpointView::GetKeyInfo { id, search, show_secret_key }) => Ok(
                EndpointV0::GetKeyInfo { id, search, show_secret_key },
            ),
            Ok(EndpointView::CreateKey) => Ok(EndpointV0::CreateKey),
            Ok(EndpointView::ImportKey) => Ok(EndpointV0::ImportKey),
            Ok(EndpointView::UpdateKey { id }) => Ok(EndpointV0::UpdateKey { id }),
            Ok(EndpointView::DeleteKey { id }) => Ok(EndpointV0::DeleteKey { id }),
            Ok(EndpointView::ListBuckets) => Ok(EndpointV0::ListBuckets),
            Ok(EndpointView::GetBucketInfo { id, global_alias }) => Ok(
                EndpointV0::GetBucketInfo { id, global_alias },
            ),
            Ok(EndpointView::CreateBucket) => Ok(EndpointV0::CreateBucket),
            Ok(EndpointView::DeleteBucket { id }) => Ok(EndpointV0::DeleteBucket { id }),
            Ok(EndpointView::UpdateBucket { id }) => Ok(EndpointV0::UpdateBucket { id }),
            Ok(EndpointView::BucketAllowKey) => Ok(EndpointV0::BucketAllowKey),
            Ok(EndpointView::BucketDenyKey) => Ok(EndpointV0::BucketDenyKey),
            Ok(EndpointView::GlobalAliasBucket { id, alias }) => Ok(
                EndpointV0::GlobalAliasBucket { id, alias },
            ),
            Ok(EndpointView::GlobalUnaliasBucket { id, alias }) => Ok(
                EndpointV0::GlobalUnaliasBucket { id, alias },
            ),
            Ok(EndpointView::LocalAliasBucket { id, access_key_id, alias }) => Ok(
                EndpointV0::LocalAliasBucket { id, access_key_id, alias },
            ),
            Ok(EndpointView::LocalUnaliasBucket { id, access_key_id, alias }) => Ok(
                EndpointV0::LocalUnaliasBucket { id, access_key_id, alias },
            ),
            Ok(_) => Err(ParseFailure::UnknownRoute),
            Err(f) => Err(f),
        }
    }
}

/// The full parser: the `OPTIONS` preflight, the two version namespaces, and
/// the unprefixed special paths.
pub open spec fn spec_parse_endpoint(
    m: Method,
    path: Seq<char>,
    params: Seq<(Seq<char>, Seq<char>)>,
) -> Result<EndpointView, ParseFailure> {
    if m == Method::Options {
        Ok(EndpointView::Options)
    } else if path.len() >= 4 && path.subrange(0, 4) == "/v0/"@ {
        match spec_parse_v0(m, path.subrange(3, path.len() as int), params) {
            Ok(e0) => Ok(spec_from_v0(e0)),
            Err(f) => Err(f),
        }
    } else if path.len() >= 4 && path.subrange(0, 4) == "/v1/"@ {
        spec_parse_admin(m, path.subrange(3, path.len() as int), params)
    } else if m == Method::Get && path == "/check"@ {
        Ok(EndpointView::CheckDomain)
    } else if m == Method::Get && path == "/health"@ {
        Ok(EndpointView::Health)
    } else if m == Method::Get && path == "/metrics"@ {
        Ok(EndpointView::Metrics)
    } else {
        Err(ParseFailure::UnknownRoute)
    }
}

/// Every route the legacy namespace recognizes parses, under the current
/// namespace, to exactly the endpoint its mapping yields: legacy paths
/// and their current equivalents denote the same endpoint value.
pub proof fn lemma_legacy_routes_agree(
    m: Method,
    sub: Seq<char>,
    params: Seq<(Seq<char>, Seq<char>)>,
)
    ensures
        spec_parse_v0(m, sub, params) matches Ok(e0) ==> spec_parse_admin(m, sub, params)
            == Ok::<EndpointView, ParseFailure>(spec_from_v0(e0)),
{
}

fn missing_param_error() -> (e: ApiError)
    ensures
        e matches ApiError::BadRequest(m) && m@ == spec_failure_message(
            ParseFailure::MissingParameter,
        ),
{
    ApiError::BadRequest(String::from_str("Missing required query parameter"))
}

fn unknown_route_error() -> (e: ApiError)
    ensures
        e matches ApiError::BadRequest(m) && m@ == spec_failure_message(
            ParseFailure::UnknownRoute,
        ),
{
    ApiError::BadRequest(String::from_str("Invalid API endpoint"))
}

/// Parses an admin route of the current namespace, its version prefix
/// already stripped.
fn admin_endpoint(method: Method, sub: &str, params: &Vec<(String, String)>) -> (r: Result<
    Endpoint,
    ApiError,
>)
    ensures
        ({
            let s = spec_parse_admin(method, sub@, params_view(params@));
            match r {
                Ok(e) => s == Ok::<EndpointView, ParseFailure>(e@),
                Err(err) => s matches Err(f) && (err matches ApiError::BadRequest(m) && m@
                    == spec_failure_message(f)),
            }
        }),
{
    if method == Method::Get && str_eq(sub, "/status") {
        Ok(Endpoint::GetClusterStatus)
    } else if method == Method::Get && str_eq(sub, "/health") {
        Ok(Endpoint::GetClusterHealth)
    } else if method == Method::Post && str_eq(sub, "/connect") {
        Ok(Endpoint::ConnectClusterNodes)
    } else if method == Method::Get && str_eq(sub, "/layout") {
        Ok(Endpoint::GetClusterLayout)
    } else if method == Method::Post && str_eq(sub, "/layout") {
        Ok(Endpoint::UpdateClusterLayout)
    } else if method == Method::Post && str_eq(sub, "/layout/apply") {
        Ok(Endpoint::ApplyClusterLayout)
    } else if method == Method::Post && str_eq(sub, "/layout/revert") {
        Ok(Endpoint::RevertClusterLayout)
    } else if method == Method::Get && str_eq(sub, "/key/list") {
        Ok(Endpoint::ListKeys)
    } else if method == Method::Get && str_eq(sub, "/key") {
        Ok(
            Endpoint::GetKeyInfo {
                id: get_param(params, "id"),
                search: get_param(params, "search"),
                show_secret_key: get_param(params, "showSecretKey"),
            },
        )
    } else if method == Method::Post && str_eq(sub, "/key/import") {
        Ok(Endpoint::ImportKey)
    } else if method == Method::Post && str_eq(sub, "/key") {
        match get_param(params, "id") {
            Some(id) => Ok(Endpoint::UpdateKey { id }),
            None => Ok(Endpoint::CreateKey),
        }
    } else if method == Method::Delete && str_eq(sub, "/key") {
        match get_param(params, "id") {
            Some(id) => Ok(Endpoint::DeleteKey { id }),
            None => Err(missing_param_error()),
        }
    } else if method == Method::Get && str_eq(sub, "/bucket/list") {
        Ok(Endpoint::ListBuckets)
    } else if method == Method::Get && str_eq(sub, "/bucket") {
        Ok(
            Endpoint::GetBucketInfo {
                id: get_param(params, "id"),
                global_alias: get_param(params, "globalAlias"),
            },
        )
    } else if method == Method::Post && str_eq(sub, "/bucket") {
        Ok(Endpoint::CreateBucket)
    } else if method == Method::Delete && str_eq(sub, "/bucket") {
        match get_param(params, "id") {
            Some(id) => Ok(Endpoint::DeleteBucket { id }),
            None => Err(missing_param_error()),
        }
    } else if method == Method::Put && str_eq(sub, "/bucket") {
        match get_param(params, "id") {
            Some(id) => Ok(Endpoint::UpdateBucket { id }),
            None => Err(missing_param_error()),
        }
    } else if method == Method::Post && str_eq(sub, "/bucket/allow") {
        Ok(Endpoint::BucketAllowKey)
    } else if method == Method::Post && str_eq(sub, "/bucket/deny") {
        Ok(Endpoint::BucketDenyKey)
    } else if method == Method::Put && str_eq(sub, "/bucket/alias/global") {
        match (get_param(params, "id"), get_param(params, "alias")) {
            (Some(id), Some(alias)) => Ok(Endpoint::GlobalAliasBucket { id, alias }),
            _ => Err(missing_param_error()),
        }
    } else if method == Method::Delete && str_eq(sub, "/bucket/alias/global") {
        match (get_param(params, "id"), get_param(params, "alias")) {
            (Some(id), Some(alias)) => Ok(Endpoint::GlobalUnaliasBucket { id, alias }),
            _ => Err(missing_param_error()),
        }
    } else if method == Method::Put && str_eq(sub, "/bucket/alias/local") {
        match (get_param(params, "id"), get_param(params, "accessKeyId"), get_param(
            params,
            "alias",
        )) {
            (Some(id), Some(access_key_id), Some(alias)) => Ok(
                Endpoint::LocalAliasBucket { id, access_key_id, alias },
            ),
            _ => Err(missing_param_error()),
        }
    } else if method == Method::Delete && str_eq(sub, "/bucket/alias/local") {
        match (get_param(params, "id"), get_param(params, "accessKeyId"), get_param(
            params,
            "alias",
        )) {
            (Some(id), Some(access_key_id), Some(alias)) => Ok(
                Endpoint::LocalUnaliasBucket { id, access_key_id, alias },
            ),
            _ => Err(missing_param_error()),
        }
    } else {
        Err(unknown_route_error())
    }
}

/// Parses a legacy admin route and maps it into the current endpoint
/// representation.
fn admin_endpoint_v0(method: Method, sub: &str, params: &Vec<(String, String)>) -> (r: Result<
    Endpoint,
    ApiError,
>)
    ensures
        ({
            let s = spec_parse_v0(method, sub@, params_view(params@));
            match r {
                Ok(e) => s matches Ok(e0) && e@ == spec_from_v0(e0),
                Err(err) => s matches Err(f) && (err matches ApiError::BadRequest(m) && m@
                    == spec_failure_message(f)),
            }
        }),
{
    if method == Method::Get && str_eq(sub, "/health") {
        Err(unknown_route_error())
    } else {
        admin_endpoint(method, sub, params)
    }
}

/// Parses a request into an endpoint from its method, path, and decoded
/// query parameters, or fails with the client error naming the reason.
pub fn endpoint_from_parts(method: Method, path: &str, params: &Vec<(String, String)>) -> (r:
    Result<Endpoint, ApiError>)
    ensures
        ({
            let s = spec_parse_endpoint(method, path@, params_view(params@));
            match r {
                Ok(e) => s == Ok::<EndpointView, ParseFailure>(e@),
                Err(err) => s matches Err(f) && (err matches ApiError::BadRequest(m) && m@
                    == spec_failure_message(f)),
            }
        }),
{
    proof {
        reveal_strlit("/v0/");
        reveal_strlit("/v1/");
    }
    if method == Method::Options {
        return Ok(Endpoint::Options);
    }
    let plen = path.unicode_len();
    if str_has_prefix(path, "/v0/") {
        let sub = path.substring_char(3, plen);
        return admin_endpoint_v0(method, sub, params);
    }
    if str_has_prefix(path, "/v1/") {
        let sub = path.substring_char(3, plen);
        return admin_endpoint(method, sub, params);
    }
    if method == Method::Get && str_eq(path, "/check") {
        return Ok(Endpoint::CheckDomain);
    }
    if method == Method::Get && str_eq(path, "/health") {
        return Ok(Endpoint::Health);
    }
    if method == Method::Get && str_eq(path, "/metrics") {
        return Ok(Endpoint::Metrics);
    }
    Err(unknown_route_error())
}

} // verus!
