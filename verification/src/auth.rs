//! Token-based authorization: endpoint sensitivity classes, the two server
//! secrets, and the policy deciding whether a presented header grants access.

use vstd::prelude::*;

use crate::response::ApiError;
use crate::strutil::{trimmed, trimmed_eq};

verus! {

/// Sensitivity class of an endpoint; every endpoint maps to exactly one.
#[derive(Clone, Copy, Debug, PartialEq, Eq, Structural)]
pub enum AuthorizationClass {
    /// Always allowed; any presented header is ignored.
    Open,
    /// Guarded by the metrics bearer token, when one is configured.
    MetricsRestricted,
    /// Guarded by the admin bearer token; denied outright while none is
    /// configured (fail-closed).
    AdminRestricted,
}

/// The two optional bearer tokens, loaded once at startup and immutable for
/// the process lifetime. Each is stored as the full expected header value,
/// `Bearer <secret>`.
#[derive(Clone, Debug)]
pub struct ServerSecrets {
    pub metrics_token: Option<String>,
    pub admin_token: Option<String>,
}

/// View of an optional header value.
pub open spec fn opt_view(o: Option<&String>) -> Option<Seq<char>> {
    match o {
        Some(s) => Some(s@),
        None => None,
    }
}

/// True iff the request must be denied because the class is admin-restricted
/// and no admin token is configured ("service disabled" semantics).
pub open spec fn admin_disabled(secrets: ServerSecrets, class: AuthorizationClass) -> bool {
    class == AuthorizationClass::AdminRestricted && secrets.admin_token is None
}

/// The header value a request of `class` must present, or `None` when no
/// check applies. Meaningful only when `!admin_disabled`.
pub open spec fn expected_header(secrets: ServerSecrets, class: AuthorizationClass) -> Option<
    Seq<char>,
> {
    match class {
        AuthorizationClass::Open => None,
        AuthorizationClass::MetricsRestricted => match secrets.metrics_token {
            Some(t) => Some(t@),
            None => None,
        },
        AuthorizationClass::AdminRestricted => match secrets.admin_token {
            Some(t) => Some(t@),
            None => None,
        },
    }
}

/// The authorization policy: a request is allowed iff its class is not
/// disabled and either no token check applies or the presented header,
/// trimmed of surrounding whitespace, equals the expected value exactly.
pub open spec fn spec_authorized(
    secrets: ServerSecrets,
    class: AuthorizationClass,
    header: Option<Seq<char>>,
) -> bool {
    &&& !admin_disabled(secrets, class)
    &&& match expected_header(secrets, class) {
        None => true,
        Some(exp) => match header {
            Some(h) => trimmed(h) == exp,
            None => false,
        },
    }
}

/// The diagnostic shown when authorization is denied: the three flavors are
/// distinguishable, and none echoes the expected token. Meaningful only when
/// `!spec_authorized(secrets, class, header)`.
pub open spec fn spec_denial_message(
    secrets: ServerSecrets,
    class: AuthorizationClass,
    header: Option<Seq<char>>,
) -> Seq<char> {
    if admin_disabled(secrets, class) {
        "Admin token isn't configured, admin API access is disabled for security."@
    } else if header is None {
        "Authorization token must be provided"@
    } else {
        "Invalid authorization token provided"@
    }
}

impl ServerSecrets {
    /// Builds the secrets from the configured raw tokens, formatting each as
    /// the bearer credential the policy compares against.
    pub fn new(metrics_secret: Option<String>, admin_secret: Option<String>) -> (s: ServerSecrets)
        ensures
            s.metrics_token is Some <==> metrics_secret is Some,
            metrics_secret matches Some(t) ==> (s.metrics_token matches Some(e) && e@
                == "Bearer "@ + t@),
            s.admin_token is Some <==> admin_secret is Some,
            admin_secret matches Some(t) ==> (s.admin_token matches Some(e) && e@ == "Bearer "@
                + t@),
    {
        let metrics_token = match metrics_secret {
            Some(t) => Some(String::from_str("Bearer ").concat(t.as_str())),
            None => None,
        };
        let admin_token = match admin_secret {
            Some(t) => Some(String::from_str("Bearer ").concat(t.as_str())),
            None => None,
        };
        ServerSecrets { metrics_token, admin_token }
    }

    /// Decides whether a request of the given class, presenting `header`, is
    /// allowed. Each denial carries a distinguishable reason; none echoes the
    /// expected token.
    pub fn check_authorization(&self, class: AuthorizationClass, header: Option<&String>) -> (r:
        Result<(), ApiError>)
        ensures
            r is Ok <==> spec_authorized(*self, class, opt_view(header)),
            r matches Err(e) ==> (e matches ApiError::Forbidden(m) && m@ == spec_denial_message(
                *self,
                class,
                opt_view(header),
            )),
    {
        let expected: Option<&String> = match class {
            AuthorizationClass::Open => None,
            AuthorizationClass::MetricsRestricted => self.metrics_token.as_ref(),
            AuthorizationClass::AdminRestricted => match &self.admin_token {
                None => {
                    return Err(
                        ApiError::Forbidden(
                            String::from_str(
                                "Admin token isn't configured, admin API access is disabled for security.",
                            ),
                        ),
                    );
                },
                Some(t) => Some(t),
            },
        };
        match expected {
            None => Ok(()),
            Some(exp) => match header {
                None => Err(
                    ApiError::Forbidden(String::from_str("Authorization token must be provided")),
                ),
                Some(h) => {
                    if trimmed_eq(h.as_str(), exp.as_str()) {
                        Ok(())
                    } else {
                        Err(
                            ApiError::Forbidden(
                                String::from_str("Invalid authorization token provided"),
                            ),
                        )
                    }
                },
            },
        }
    }
}

/// An admin-class request is denied while no admin token is configured,
/// whatever header the caller presents — even one matching the metrics token.
pub proof fn lemma_admin_fail_closed(secrets: ServerSecrets, header: Option<Seq<char>>)
    requires
        secrets.admin_token is None,
    ensures
        !spec_authorized(secrets, AuthorizationClass::AdminRestricted, header),
{
}

/// While no metrics token is configured, every metrics-class request is
/// allowed, whatever header the caller presents.
pub proof fn lemma_metrics_open_when_unset(secrets: ServerSecrets, header: Option<Seq<char>>)
    requires
        secrets.metrics_token is None,
    ensures
        spec_authorized(secrets, AuthorizationClass::MetricsRestricted, header),
{
}

} // verus!
