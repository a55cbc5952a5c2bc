//! The cross-origin policy that every response carries.

use vstd::prelude::*;
use crate::http::{
    header_views, lemma_lookup_set, lookup, name_eq, set_header_spec, Header, Headers, Response,
};

verus! {

pub open spec fn allow_origin() -> Seq<char> {
    "Access-Control-Allow-Origin"@
}

pub open spec fn allow_methods() -> Seq<char> {
    "Access-Control-Allow-Methods"@
}

pub open spec fn allow_headers() -> Seq<char> {
    "Access-Control-Allow-Headers"@
}

pub open spec fn any_origin() -> Seq<char> {
    "*"@
}

pub open spec fn allowed_methods() -> Seq<char> {
    "GET, POST, OPTIONS"@
}

pub open spec fn allowed_headers() -> Seq<char> {
    "Content-Type, X-API-Key"@
}

/// The three headers of the policy, in the order in which they are set.
pub open spec fn cors_policy() -> Headers {
    seq![
        (allow_origin(), any_origin()),
        (allow_methods(), allowed_methods()),
        (allow_headers(), allowed_headers()),
    ]
}

/// `hs` with the three policy headers set, each replacing any header of the
/// same name.
pub open spec fn with_cors(hs: Headers) -> Headers {
    set_header_spec(
        set_header_spec(set_header_spec(hs, allow_origin(), any_origin()), allow_methods(), allowed_methods()),
        allow_headers(),
        allowed_headers(),
    )
}

/// Whether `hs` carries each policy header with its value.
pub open spec fn has_cors(hs: Headers) -> bool {
    &&& lookup(hs, allow_origin()) == Some(any_origin())
    &&& lookup(hs, allow_methods()) == Some(allowed_methods())
    &&& lookup(hs, allow_headers()) == Some(allowed_headers())
}

/// The hook that decorates every outbound response with permissive
/// cross-origin headers.
#[derive(Clone, Copy, Debug)]
pub struct CORS;

impl CORS {
    /// The name under which the hook is registered.
    pub fn info(&self) -> (r: &'static str)
        ensures
            r@ == "Add CORS headers to responses"@,
    {
        "Add CORS headers to responses"
    }

    /// The policy's headers.
    pub fn headers(&self) -> (r: Vec<Header>)
        ensures
            header_views(r@) == cors_policy(),
    {
        let mut v: Vec<Header> = Vec::new();
        v.push(Header { name: "Access-Control-Allow-Origin".to_string(), value: "*".to_string() });
        v.push(Header { name: "Access-Control-Allow-Methods".to_string(), value: "GET, POST, OPTIONS".to_string() });
        v.push(Header { name: "Access-Control-Allow-Headers".to_string(), value: "Content-Type, X-API-Key".to_string() });
        assert(header_views(v@) =~= cors_policy());
        v
    }

    /// Sets the policy's three headers on `response`, over any value they
    /// had; status, media type and body are kept.
    pub fn on_response(&self, response: &mut Response)
        ensures
            header_views(final(response).headers@) == with_cors(header_views(old(response).headers@)),
            final(response).status == old(response).status,
            final(response).content_type == old(response).content_type,
            final(response).body == old(response).body,
    {
        response.set_header("Access-Control-Allow-Origin", "*");
        response.set_header("Access-Control-Allow-Methods", "GET, POST, OPTIONS");
        response.set_header("Access-Control-Allow-Headers", "Content-Type, X-API-Key");
    }
}

/// Whatever headers a response had, after the policy is applied it carries
/// all three policy headers with their values.
pub proof fn lemma_with_cors_has_cors(hs: Headers)
    ensures
        has_cors(with_cors(hs)),
{
    reveal_strlit("Access-Control-Allow-Origin");
    reveal_strlit("Access-Control-Allow-Methods");
    reveal_strlit("Access-Control-Allow-Headers");
    let o = allow_origin();
    let m = allow_methods();
    let h = allow_headers();
    assert(!name_eq(o, m));
    assert(!name_eq(o, h));
    assert(!char_eq_at(m, h, 21));
    assert(!name_eq(m, h));
    assert(!char_eq_at(h, m, 21));
    assert(!name_eq(h, m));
    assert(name_eq(o, o));
    assert(name_eq(m, m));
    assert(name_eq(h, h));
    let h1 = set_header_spec(hs, o, any_origin());
    let h2 = set_header_spec(h1, m, allowed_methods());
    lemma_lookup_set(hs, o, any_origin(), o);
    lemma_lookup_set(h1, m, allowed_methods(), o);
    lemma_lookup_set(h2, h, allowed_headers(), o);
    lemma_lookup_set(h1, m, allowed_methods(), m);
    lemma_lookup_set(h2, h, allowed_headers(), m);
    lemma_lookup_set(h2, h, allowed_headers(), h);
}

spec fn char_eq_at(a: Seq<char>, b: Seq<char>, i: int) -> bool {
    crate::http::char_eq_ignore_case(a[i], b[i])
}

} // verus!
