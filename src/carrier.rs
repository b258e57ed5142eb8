//! Credential carrier: reads the session token from the request's `Cookie`
//! header and writes it into a `Set-Cookie` value.
use axum::headers::Header;
use vstd::prelude::*;

verus! {

/// Name of the cookie that carries the session token.
pub open spec fn auth_cookie_name() -> Seq<char> {
    seq!['a', 'u', 't', 'h', 'e', 'n', 't', 'i', 'c', 'a', 't', 'i', 'o', 'n']
}

/// Attributes written after the cookie's value: sent on every path, hidden
/// from scripts, and not sent on cross-site subrequests.
pub open spec fn auth_cookie_attributes() -> Seq<char> {
    seq![';', ' ', 'P', 'a', 't', 'h', '=', '/', ';', ' ', 'H', 't', 't', 'p', 'O', 'n', 'l', 'y']
        + seq![';', ' ', 'S', 'a', 'm', 'e', 'S', 'i', 't', 'e', '=', 'L', 'a', 'x']
}

/// The raw values of a request's `Cookie` header lines.
pub open spec fn headers_view(headers: Seq<Vec<u8>>) -> Seq<Seq<u8>> {
    headers.map_values(|h: Vec<u8>| h@)
}

pub open spec fn opt_string_view(o: Option<String>) -> Option<Seq<char>> {
    match o {
        Some(s) => Some(s@),
        None => None,
    }
}

/// The value that the `Cookie` header lines give to the cookie `name`.
pub uninterp spec fn cookie_lookup(headers: Seq<Seq<u8>>, name: Seq<char>) -> Option<Seq<char>>;

/// The session token a request carries: none without a `Cookie` header,
/// else the value of its `authentication` cookie, if it has one.
pub open spec fn extract_spec(headers: Seq<Seq<u8>>) -> Option<Seq<char>> {
    if headers.len() == 0 {
        None
    } else {
        cookie_lookup(headers, auth_cookie_name())
    }
}

/// Relies on the `headers` crate's `Cookie` header, as axum re-exports it:
/// the header lines are joined, split into `key=value` pairs, and `get`
/// returns the trimmed value of the first pair whose key is `name`. The
/// result depends on the lines and the name alone.
#[verifier::external_body]
fn cookie_get(headers: &Vec<Vec<u8>>, name: &str) -> (r: Option<String>)
    ensures
        opt_string_view(r) == cookie_lookup(headers_view(headers@), name@),
{
    let values: Vec<axum::http::HeaderValue> =
        headers.iter().map(|h| axum::http::HeaderValue::from_bytes(h)).collect::<Result<_, _>>().ok()?;
    let cookie = axum::headers::Cookie::decode(&mut values.iter()).ok()?;
    cookie.get(name).map(str::to_owned)
}

/// Looks for a `Cookie` header, then for the `authentication` cookie in it.
/// Absence of either is the anonymous visitor's normal state, not an error.
pub fn extract(cookie_headers: &Vec<Vec<u8>>) -> (r: Option<String>)
    ensures
        opt_string_view(r) == extract_spec(headers_view(cookie_headers@)),
{
    if cookie_headers.len() == 0 {
        return None;
    }
    let name = "authentication";
    proof {
        reveal_strlit("authentication");
        assert(name@ =~= auth_cookie_name());
    }
    cookie_get(cookie_headers, name)
}

/// The `Set-Cookie` value that hands the token to the client under the name
/// `authentication`.
pub fn attach(token: &str) -> (r: String)
    ensures
        r@ == auth_cookie_name() + seq!['='] + token@ + auth_cookie_attributes(),
{
    let prefix = "authentication=";
    let suffix = "; Path=/; HttpOnly; SameSite=Lax";
    proof {
        reveal_strlit("authentication=");
        reveal_strlit("; Path=/; HttpOnly; SameSite=Lax");
        assert(prefix@ =~= auth_cookie_name() + seq!['=']);
        assert(suffix@ =~= auth_cookie_attributes());
    }
    let mut value = prefix.to_owned();
    value.append(token);
    value.append(suffix);
    value
}

} // verus!
