//! Decoding of URL query strings into key/value pairs, and verified lookup of
//! a parameter by name.

use vstd::prelude::*;

verus! {

/// The key/value pairs that URL-form decoding yields for a query string; a
/// function of the query characters alone.
pub uninterp spec fn form_decoded(q: Seq<char>) -> Seq<(Seq<char>, Seq<char>)>;

/// Views of a vector of owned key/value pairs.
pub open spec fn params_view(s: Seq<(String, String)>) -> Seq<(Seq<char>, Seq<char>)> {
    s.map_values(|p: (String, String)| (p.0@, p.1@))
}

/// Relies on url::form_urlencoded::parse: percent-decodes a query string into
/// its key/value pairs; the result depends on the input characters alone.
#[verifier::external_body]
pub(crate) fn parse_query_params(q: &str) -> (r: Vec<(String, String)>)
    ensures
        params_view(r@) == form_decoded(q@),
{
    url::form_urlencoded::parse(q.as_bytes())
        .into_owned()
        .collect()
}

/// The value of the first pair whose key is `name`, if any.
pub open spec fn spec_get_param(params: Seq<(Seq<char>, Seq<char>)>, name: Seq<char>) -> Option<
    Seq<char>,
>
    decreases params.len(),
{
    if params.len() == 0 {
        None
    } else if params[0].0 == name {
        Some(params[0].1)
    } else {
        spec_get_param(params.drop_first(), name)
    }
}

/// Looks `name` up among the decoded parameters; first match wins.
pub fn get_param(params: &Vec<(String, String)>, name: &str) -> (r: Option<String>)
    ensures
        r is Some <==> spec_get_param(params_view(params@), name@) is Some,
        r matches Some(v) ==> (spec_get_param(params_view(params@), name@) matches Some(sv) && v@
            == sv),
{
    let ghost full = params_view(params@);
    proof {
        assert(full.skip(0) =~= full);
    }
    let n = params.len();
    let mut i: usize = 0;
    while i < n
        invariant
            n == params@.len(),
            full == params_view(params@),
            full.len() == n,
            0 <= i <= n,
            spec_get_param(full, name@) == spec_get_param(full.skip(i as int), name@),
        decreases n - i,
    {
        let pair = &params[i];
        if crate::strutil::str_eq(pair.0.as_str(), name) {
            proof {
                assert(full.skip(i as int)[0] == full[i as int]);
                assert(full[i as int].0 == name@);
                assert(spec_get_param(full.skip(i as int), name@) == Some(full[i as int].1));
            }
            return Some(pair.1.clone());
        }
        proof {
            assert(full.skip(i as int)[0] == full[i as int]);
            assert(full[i as int].0 != name@);
            assert(full.skip(i as int).drop_first() =~= full.skip(i + 1));
        }
        i += 1;
    }
    proof {
        assert(full.skip(n as int).len() == 0);
    }
    None
}

} // verus!
