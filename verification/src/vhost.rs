//! Virtual-host resolution: mapping a domain to a bucket-name candidate with
//! an ordered fallback policy, then validating it against the bucket
//! directory.

use vstd::prelude::*;

use crate::query::{params_view, spec_get_param, get_param};
use crate::response::{ApiError, HttpResponse};
use crate::strutil::{str_eq, str_has_suffix};

verus! {

/// The two optionally configured root domains: one for the plain
/// data-serving namespace, one for the website-serving namespace.
#[derive(Clone, Debug)]
pub struct VhostConfig {
    pub root_domain: Option<String>,
    pub website_root_domain: Option<String>,
}

/// Directory of buckets, as an immutable snapshot: global aliases mapping a
/// name to a bucket identifier, and for each bucket whether a website
/// configuration is present.
#[derive(Clone, Debug)]
pub struct BucketDirectory {
    pub aliases: Vec<(String, u64)>,
    pub buckets: Vec<(u64, bool)>,
}

/// The label prefix of `host` when it is a strict subdomain of `root`: `host`
/// must end with `.` followed by `root`, with a non-empty prefix before the
/// dot. Equality with the root itself does not match.
pub open spec fn spec_host_to_bucket(host: Seq<char>, root: Seq<char>) -> Option<Seq<char>> {
    if host.len() > root.len() + 1 && host.subrange(
        host.len() - root.len(),
        host.len() as int,
    ) == root && host[host.len() - root.len() - 1] == '.' {
        Some(host.subrange(0, host.len() - root.len() - 1))
    } else {
        None
    }
}

/// Extracts the bucket-name prefix of a strict subdomain of `root`.
pub fn host_to_bucket(host: &str, root: &str) -> (r: Option<String>)
    ensures
        r is Some <==> spec_host_to_bucket(host@, root@) is Some,
        r matches Some(b) ==> (spec_host_to_bucket(host@, root@) matches Some(sb) && b@ == sb),
{
    let hlen = host.unicode_len();
    let rlen = root.unicode_len();
    if rlen < hlen && hlen - rlen >= 2 && str_has_suffix(host, root) && host.get_char(
        hlen - rlen - 1,
    ) == '.' {
        Some(String::from_str(host.substring_char(0, hlen - rlen - 1)))
    } else {
        None
    }
}

/// Website-namespace and verbatim fallback of the resolution policy.
pub open spec fn spec_resolve_web(cfg: VhostConfig, domain: Seq<char>) -> (Seq<char>, bool) {
    match cfg.website_root_domain {
        Some(rd) => match spec_host_to_bucket(domain, rd@) {
            Some(b) => (b, true),
            None => (domain, true),
        },
        None => (domain, true),
    }
}

/// The resolution policy, first match wins: a strict subdomain of the data
/// root domain needs no website check; a strict subdomain of the website root
/// domain, or the domain taken verbatim as a bucket name, does.
pub open spec fn spec_resolve_domain(cfg: VhostConfig, domain: Seq<char>) -> (Seq<char>, bool) {
    match cfg.root_domain {
        Some(rd) => match spec_host_to_bucket(domain, rd@) {
            Some(b) => (b, false),
            None => spec_resolve_web(cfg, domain),
        },
        None => spec_resolve_web(cfg, domain),
    }
}

/// Resolves a domain to its bucket-name candidate and whether that bucket
/// must additionally have website mode enabled.
pub fn resolve_domain(cfg: &VhostConfig, domain: &str) -> (r: (String, bool))
    ensures
        r.0@ == spec_resolve_domain(*cfg, domain@).0,
        r.1 == spec_resolve_domain(*cfg, domain@).1,
{
    if let Some(rd) = &cfg.root_domain {
        if let Some(b) = host_to_bucket(domain, rd.as_str()) {
            return (b, false);
        }
    }
    if let Some(rd) = &cfg.website_root_domain {
        if let Some(b) = host_to_bucket(domain, rd.as_str()) {
            return (b, true);
        }
    }
    (String::from_str(domain), true)
}

/// The bucket identifier the first alias named `name` points to, if any.
pub open spec fn spec_lookup_alias(aliases: Seq<(String, u64)>, name: Seq<char>) -> Option<u64>
    decreases aliases.len(),
{
    if aliases.len() == 0 {
        None
    } else if aliases[0].0@ == name {
        Some(aliases[0].1)
    } else {
        spec_lookup_alias(aliases.drop_first(), name)
    }
}

/// Whether the first record of bucket `id` has a website configuration, if
/// such a record exists.
pub open spec fn spec_lookup_bucket(buckets: Seq<(u64, bool)>, id: u64) -> Option<bool>
    decreases buckets.len(),
{
    if buckets.len() == 0 {
        None
    } else if buckets[0].0 == id {
        Some(buckets[0].1)
    } else {
        spec_lookup_bucket(buckets.drop_first(), id)
    }
}

/// Resolves an alias name through the directory; first match wins.
pub fn lookup_alias(dir: &BucketDirectory, name: &str) -> (r: Option<u64>)
    ensures
        r == spec_lookup_alias(dir.aliases@, name@),
{
    proof {
        assert(dir.aliases@.skip(0) =~= dir.aliases@);
    }
    let n = dir.aliases.len();
    let mut i: usize = 0;
    while i < n
        invariant
            n == dir.aliases@.len(),
            0 <= i <= n,
            spec_lookup_alias(dir.aliases@, name@) == spec_lookup_alias(
                dir.aliases@.skip(i as int),
                name@,
            ),
        decreases n - i,
    {
        let entry = &dir.aliases[i];
        if str_eq(entry.0.as_str(), name) {
            proof {
                assert(dir.aliases@.skip(i as int)[0] == dir.aliases@[i as int]);
            }
            return Some(entry.1);
        }
        proof {
            assert(dir.aliases@.skip(i as int)[0] == dir.aliases@[i as int]);
            assert(dir.aliases@.skip(i as int).drop_first() =~= dir.aliases@.skip(i + 1));
        }
        i += 1;
    }
    None
}

/// Fetches the website-configuration presence of bucket `id`; first matching
/// record wins.
pub fn lookup_bucket(dir: &BucketDirectory, id: u64) -> (r: Option<bool>)
    ensures
        r == spec_lookup_bucket(dir.buckets@, id),
{
    proof {
        assert(dir.buckets@.skip(0) =~= dir.buckets@);
    }
    let n = dir.buckets.len();
    let mut i: usize = 0;
    while i < n
        invariant
            n == dir.buckets@.len(),
            0 <= i <= n,
            spec_lookup_bucket(dir.buckets@, id) == spec_lookup_bucket(
                dir.buckets@.skip(i as int),
                id,
            ),
        decreases n - i,
    {
        let entry = &dir.buckets[i];
        if entry.0 == id {
            proof {
                assert(dir.buckets@.skip(i as int)[0] == dir.buckets@[i as int]);
            }
            return Some(entry.1);
        }
        proof {
            assert(dir.buckets@.skip(i as int)[0] == dir.buckets@[i as int]);
            assert(dir.buckets@.skip(i as int).drop_first() =~= dir.buckets@.skip(i + 1));
        }
        i += 1;
    }
    None
}

/// The overall domain-check outcome. `Ok(true)`: the domain resolves to a
/// bucket and, where required, that bucket has website mode enabled.
/// `Ok(false)`: no bucket resolves for the extracted name, or the required
/// website configuration is absent. `Err`: the alias resolved but the bucket
/// record itself is gone — a consistency fault, not a client error.
pub open spec fn spec_check_domain(
    cfg: VhostConfig,
    dir: BucketDirectory,
    domain: Seq<char>,
) -> Result<bool, ()> {
    let resolved = spec_resolve_domain(cfg, domain);
    match spec_lookup_alias(dir.aliases@, resolved.0) {
        None => Ok(false),
        Some(id) => if !resolved.1 {
            Ok(true)
        } else {
            match spec_lookup_bucket(dir.buckets@, id) {
                None => Err(()),
                Some(has_website) => Ok(has_website),
            }
        },
    }
}

/// Checks whether `domain` is servable: resolves it to a bucket-name
/// candidate, looks the name up in the alias directory and, where the policy
/// requires it, demands a present website configuration.
pub fn check_domain(cfg: &VhostConfig, dir: &BucketDirectory, domain: &str) -> (r: Result<
    bool,
    ApiError,
>)
    ensures
        r matches Ok(b) ==> spec_check_domain(*cfg, *dir, domain@) == Ok::<bool, ()>(b),
        r is Err <==> spec_check_domain(*cfg, *dir, domain@) is Err,
        r matches Err(e) ==> (e matches ApiError::InternalError(m) && m@
            == "Bucket alias resolved to a bucket that no longer exists"@),
{
    let (bucket_name, must_check_website) = resolve_domain(cfg, domain);
    let bucket_id = match lookup_alias(dir, bucket_name.as_str()) {
        Some(id) => id,
        None => {
            return Ok(false);
        },
    };
    if !must_check_website {
        return Ok(true);
    }
    match lookup_bucket(dir, bucket_id) {
        Some(has_website) => Ok(has_website),
        None => Err(
            ApiError::InternalError(
                String::from_str("Bucket alias resolved to a bucket that no longer exists"),
            ),
        ),
    }
}

/// Answers `GET /check` from the already-decoded query parameters: 200 with a
/// confirmation naming the domain when it resolves, a client error naming the
/// domain when it does not, and a client error when the `domain` parameter is
/// absent.
pub fn handle_check_domain_params(
    cfg: &VhostConfig,
    dir: &BucketDirectory,
    params: &Vec<(String, String)>,
) -> (r: Result<HttpResponse, ApiError>)
    ensures
        ({
            let pv = params_view(params@);
            match spec_get_param(pv, "domain"@) {
                None => r matches Err(e) && e matches ApiError::BadRequest(m) && m@
                    == "No domain query string found"@,
                Some(d) => match spec_check_domain(*cfg, *dir, d) {
                    Err(_) => r matches Err(e) && e matches ApiError::InternalError(m) && m@
                        == "Bucket alias resolved to a bucket that no longer exists"@,
                    Ok(true) => r matches Ok(resp) && resp.status == 200 && resp.headers@.len()
                        == 0 && resp.body@ == "Domain '"@ + d + "' is managed by Garage"@,
                    Ok(false) => r matches Err(e) && e matches ApiError::BadRequest(m) && m@
                        == "Domain '"@ + d + "' is not managed by Garage"@,
                },
            }
        }),
{
    let domain = match get_param(params, "domain") {
        Some(d) => d,
        None => {
            return Err(ApiError::BadRequest(String::from_str("No domain query string found")));
        },
    };
    match check_domain(cfg, dir, domain.as_str()) {
        Err(e) => Err(e),
        Ok(true) => Ok(
            HttpResponse {
                status: 200,
                headers: Vec::new(),
                body: String::from_str("Domain '").concat(domain.as_str()).concat(
                    "' is managed by Garage",
                ),
            },
        ),
        Ok(false) => Err(
            ApiError::BadRequest(
                String::from_str("Domain '").concat(domain.as_str()).concat(
                    "' is not managed by Garage",
                ),
            ),
        ),
    }
}

} // verus!
