//! Access gate: decides, per request, whether it goes on to the protected
//! handler or is redirected to the login page.
use vstd::prelude::*;

use crate::carrier::{auth_cookie_name, cookie_lookup, extract, extract_spec, headers_view, opt_string_view};
use crate::codec::{claims_result_view, verify_spec, SessionClaims, TokenCodec, VerifyError};

verus! {

/// What becomes of one request at the access check.
#[derive(Clone, Copy, Debug, PartialEq, Eq, Structural)]
pub enum Access {
    /// The request goes on, unchanged, to the next stage.
    Allowed,
    /// The request is answered with a redirect to the login page.
    Denied,
}

/// The temporary redirect sent in place of a denied request.
#[derive(Clone, Debug)]
pub struct Redirect {
    /// HTTP status code.
    pub status: u16,
    /// Target of the `Location` header.
    pub location: String,
}

/// Path of the login entry point.
pub open spec fn login_path() -> Seq<char> {
    seq!['/', 'a', 'u', 't', 'h', '/', 'l', 'o', 'g', 'i', 'n']
}

/// Allowed exactly when a token is present and verifies.
pub open spec fn access_spec(token: Option<Seq<char>>, key: Seq<u8>) -> Access {
    match token {
        Some(t) => if verify_spec(t, key) is Ok {
            Access::Allowed
        } else {
            Access::Denied
        },
        None => Access::Denied,
    }
}

/// The access decision on a request with these `Cookie` header lines.
pub open spec fn request_access(headers: Seq<Seq<u8>>, key: Seq<u8>) -> Access {
    access_spec(extract_spec(headers), key)
}

/// The decision from what was found and how it verified: only a token that
/// verified lets the request through; every kind of failure denies it.
pub fn decide(outcome: Option<Result<SessionClaims, VerifyError>>) -> (r: Access)
    ensures
        r == Access::Allowed <==> (outcome matches Some(Ok(_))),
{
    match outcome {
        Some(Ok(_)) => Access::Allowed,
        _ => Access::Denied,
    }
}

/// The decision on a request that carries `token`, if any.
pub fn gate_token(codec: &TokenCodec, token: Option<&str>) -> (r: Access)
    ensures
        r == access_spec(
            match token {
                Some(t) => Some(t@),
                None => None,
            },
            codec.key(),
        ),
{
    let outcome = match token {
        Some(t) => {
            let v = codec.verify(t);
            proof {
                assert(claims_result_view(v) == verify_spec(t@, codec.key()));
            }
            Some(v)
        },
        None => None,
    };
    decide(outcome)
}

/// The decision on a request with these `Cookie` header lines.
pub fn check_request(codec: &TokenCodec, cookie_headers: &Vec<Vec<u8>>) -> (r: Access)
    ensures
        r == request_access(headers_view(cookie_headers@), codec.key()),
{
    let token = extract(cookie_headers);
    proof {
        assert(opt_string_view(token) == extract_spec(headers_view(cookie_headers@)));
    }
    match token {
        Some(t) => gate_token(codec, Some(t.as_str())),
        None => gate_token(codec, None),
    }
}

/// The response to a denied request: a temporary redirect to the login page.
pub fn login_redirect() -> (r: Redirect)
    ensures
        r.status == 307,
        r.location@ == login_path(),
{
    let path = "/auth/login";
    proof {
        reveal_strlit("/auth/login");
        assert(path@ =~= login_path());
    }
    Redirect { status: 307, location: path.to_owned() }
}

/// A request with no `Cookie` header, or with one that holds no
/// `authentication` cookie, is denied.
pub proof fn lemma_no_credential_denied(headers: Seq<Seq<u8>>, key: Seq<u8>)
    requires
        headers.len() == 0 || cookie_lookup(headers, auth_cookie_name()) is None,
    ensures
        request_access(headers, key) == Access::Denied,
{
}

/// A request whose `authentication` cookie does not verify under the key,
/// whether malformed or wrongly signed, is denied.
pub proof fn lemma_unverified_denied(headers: Seq<Seq<u8>>, key: Seq<u8>, token: Seq<char>)
    requires
        extract_spec(headers) == Some(token),
        verify_spec(token, key) is Err,
    ensures
        request_access(headers, key) == Access::Denied,
{
}

/// A request whose `authentication` cookie holds a token that verifies under
/// the key (as every token that `issue` returns does) is allowed.
pub proof fn lemma_verified_allowed(
    headers: Seq<Seq<u8>>,
    key: Seq<u8>,
    token: Seq<char>,
    user_id: Seq<char>,
)
    requires
        extract_spec(headers) == Some(token),
        verify_spec(token, key) == Ok::<Seq<char>, VerifyError>(user_id),
    ensures
        request_access(headers, key) == Access::Allowed,
{
}

} // verus!
