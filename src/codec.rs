//! Token codec: issues and verifies HS256-signed session tokens.
use jsonwebtoken::errors::Error as JwtError;
use vstd::prelude::*;

verus! {

/// The claims asserted by a session token.
#[derive(Clone, Debug)]
pub struct SessionClaims {
    /// Opaque account identifier, unique per account and never reused.
    pub user_id: String,
}

/// Why a token was not accepted.
#[derive(Clone, Copy, Debug, PartialEq, Eq, Structural)]
pub enum VerifyError {
    /// The token cannot be parsed into header, payload and signature, or its
    /// header or payload cannot be decoded.
    Malformed,
    /// The signature does not match the one recomputed over the payload.
    SignatureMismatch,
}

/// Name of the claim that holds the account identifier.
pub open spec fn user_id_claim() -> Seq<char> {
    seq!['u', 's', 'e', 'r', '_', 'i', 'd']
}

/// The claims as the pairs of the token's payload.
pub open spec fn claims_entries(user_id: Seq<char>) -> Seq<(Seq<char>, Seq<char>)> {
    seq![(user_id_claim(), user_id)]
}

/// View of decoded payload pairs.
pub open spec fn entries_view(v: Seq<(String, String)>) -> Seq<(Seq<char>, Seq<char>)> {
    v.map_values(|p: (String, String)| (p.0@, p.1@))
}

/// The value of the first pair named `key`, if any.
pub open spec fn claim_value(entries: Seq<(Seq<char>, Seq<char>)>, key: Seq<char>) -> Option<
    Seq<char>,
>
    decreases entries.len(),
{
    if entries.len() == 0 {
        None
    } else if entries[0].0 == key {
        Some(entries[0].1)
    } else {
        claim_value(entries.drop_first(), key)
    }
}

/// Claims read from a verified payload: the account identifier must be there.
pub open spec fn claims_from_entries(entries: Seq<(Seq<char>, Seq<char>)>) -> Result<
    Seq<char>,
    VerifyError,
> {
    match claim_value(entries, user_id_claim()) {
        Some(u) => Ok(u),
        None => Err(VerifyError::Malformed),
    }
}

/// The HS256 token that signs the single claim `(claim, value)` with `secret`.
pub uninterp spec fn hs256_token(claim: Seq<char>, value: Seq<char>, secret: Seq<u8>) -> Seq<char>;

/// What HS256 verification of `token` under `secret` yields: the payload's
/// string claims, or why the token was refused.
pub uninterp spec fn hs256_payload(token: Seq<char>, secret: Seq<u8>) -> Result<
    Seq<(Seq<char>, Seq<char>)>,
    VerifyError,
>;

/// The verified outcome of `verify` on `token`, as a user id.
pub open spec fn verify_spec(token: Seq<char>, secret: Seq<u8>) -> Result<Seq<char>, VerifyError> {
    match hs256_payload(token, secret) {
        Ok(entries) => claims_from_entries(entries),
        Err(e) => Err(e),
    }
}

pub open spec fn claims_result_view(r: Result<SessionClaims, VerifyError>) -> Result<
    Seq<char>,
    VerifyError,
> {
    match r {
        Ok(c) => Ok(c.user_id@),
        Err(e) => Err(e),
    }
}

/// jsonwebtoken's error type, carried opaquely in the result of `encode_hs256`.
#[verifier::external_type_specification]
#[verifier::external_body]
pub struct ExJwtError(jsonwebtoken::errors::Error);

/// Relies on jsonwebtoken::encode with an HS256 header and an HMAC key from
/// `secret`: the token is a function of the claim and the key; it fails only
/// on a key of another algorithm family or a payload that does not serialize,
/// neither of which can happen here; and jsonwebtoken::decode, configured as
/// in `decode_hs256`, gives the one string claim back. The claim is `user_id`,
/// which none of jsonwebtoken's registered-claim checks reads.
#[verifier::external_body]
fn encode_hs256(claim: &str, value: &str, secret: &[u8]) -> (r: Result<String, JwtError>)
    requires
        claim@ == user_id_claim(),
    ensures
        r is Ok,
        r->Ok_0@ == hs256_token(claim@, value@, secret@),
        hs256_payload(r->Ok_0@, secret@) is Ok,
        hs256_payload(r->Ok_0@, secret@)->Ok_0 == seq![(claim@, value@)],
{
    let claims = std::collections::BTreeMap::from([(claim, value)]);
    let header = jsonwebtoken::Header::new(jsonwebtoken::Algorithm::HS256);
    jsonwebtoken::encode(&header, &claims, &jsonwebtoken::EncodingKey::from_secret(secret))
}

/// Relies on jsonwebtoken::decode with HS256 as the only accepted algorithm,
/// no required claim and no time-based validation, into a map of string
/// claims: the outcome is then a function of the token and the key. A bad signature is `SignatureMismatch`; every other refusal is
/// `Malformed`.
#[verifier::external_body]
fn decode_hs256(token: &str, secret: &[u8]) -> (r: Result<Vec<(String, String)>, VerifyError>)
    ensures
        r is Ok <==> hs256_payload(token@, secret@) is Ok,
        r is Ok ==> hs256_payload(token@, secret@)->Ok_0 == entries_view(r->Ok_0@),
        r is Err ==> hs256_payload(token@, secret@)->Err_0 == r->Err_0,
{
    let mut validation = jsonwebtoken::Validation::new(jsonwebtoken::Algorithm::HS256);
    validation.required_spec_claims.clear();
    validation.validate_exp = false;
    let key = jsonwebtoken::DecodingKey::from_secret(secret);
    match jsonwebtoken::decode::<std::collections::BTreeMap<String, String>>(token, &key, &validation) {
        Ok(data) => Ok(data.claims.into_iter().collect()),
        Err(e) => match e.kind() {
            jsonwebtoken::errors::ErrorKind::InvalidSignature => Err(VerifyError::SignatureMismatch),
            _ => Err(VerifyError::Malformed),
        },
    }
}

/// Reads the claims out of a verified payload: the value of the first
/// `user_id` pair, or `Malformed` where there is none.
pub fn claims_from_payload(entries: &Vec<(String, String)>) -> (r: Result<SessionClaims, VerifyError>)
    ensures
        claims_result_view(r) == claims_from_entries(entries_view(entries@)),
{
    let name = "user_id";
    proof {
        reveal_strlit("user_id");
        assert(name@ =~= user_id_claim());
    }
    let key: String = name.to_owned();
    let ghost all = entries_view(entries@);
    let mut i: usize = 0;
    assert(all.skip(0) =~= all);
    while i < entries.len()
        invariant
            i <= entries.len(),
            all == entries_view(entries@),
            key@ == user_id_claim(),
            claim_value(all, user_id_claim()) == claim_value(all.skip(i as int), user_id_claim()),
        decreases entries.len() - i,
    {
        let entry = &entries[i];
        assert(all.skip(i as int)[0] == (entry.0@, entry.1@));
        if entry.0 == key {
            return Ok(SessionClaims { user_id: entry.1.clone() });
        }
        assert(all.skip(i as int).drop_first() =~= all.skip(i + 1));
        i = i + 1;
    }
    assert(all.skip(i as int).len() == 0);
    Err(VerifyError::Malformed)
}

/// Issues and verifies session tokens under one secret key, which is given
/// at construction and never changes.
pub struct TokenCodec {
    secret: Vec<u8>,
}

impl TokenCodec {
    /// The secret key that signs and verifies.
    pub closed spec fn key(&self) -> Seq<u8> {
        self.secret@
    }

    pub fn new(secret: Vec<u8>) -> (r: TokenCodec)
        ensures
            r.key() == secret@,
    {
        TokenCodec { secret }
    }

    /// Signs the claims. The token is a function of the claims and the key,
    /// and verifying it under the same key gives the claims back.
    pub fn issue(&self, claims: &SessionClaims) -> (r: String)
        ensures
            r@ == hs256_token(user_id_claim(), claims.user_id@, self.key()),
            verify_spec(r@, self.key()) == Ok::<Seq<char>, VerifyError>(claims.user_id@),
    {
        let key = "user_id";
        proof {
            reveal_strlit("user_id");
            assert(key@ =~= user_id_claim());
        }
        match encode_hs256(key, claims.user_id.as_str(), self.secret.as_slice()) {
            Ok(token) => {
                proof {
                    let entries = claims_entries(claims.user_id@);
                    assert(entries.drop_first().len() == 0);
                    assert(claim_value(entries, user_id_claim()) == Some(claims.user_id@));
                }
                token
            },
            Err(_) => {
                proof {
                    assert(false);
                }
                String::new()
            },
        }
    }

    /// Checks the token's HS256 signature under the key and reads its claims.
    pub fn verify(&self, token: &str) -> (r: Result<SessionClaims, VerifyError>)
        ensures
            claims_result_view(r) == verify_spec(token@, self.key()),
    {
        match decode_hs256(token, self.secret.as_slice()) {
            Ok(entries) => claims_from_payload(&entries),
            Err(e) => Err(e),
        }
    }
}

} // verus!
