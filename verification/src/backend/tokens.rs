//! Session tokens are JSON Web Tokens, signed and checked by `jsonwebtoken`
//! with one shared secret.

use crate::backend::backend_types::Claims;
use crate::shared::opt_text;
use vstd::prelude::*;

verus! {

/// The compact token that `jsonwebtoken::encode` writes for the claims
/// `exp` and `sub` under a default header and an HMAC key made of `secret`.
pub uninterp spec fn signed_token(exp: u32, sub: Seq<char>, secret: Seq<char>) -> Seq<char>;

/// Whether `jsonwebtoken::decode` accepts `token` under an HMAC key made of
/// `secret`, with the default validation but for the expiry, which is not
/// looked at.
pub uninterp spec fn token_accepted(token: Seq<char>, secret: Seq<char>) -> bool;

/// Signs claims with `jsonwebtoken::encode`, under `Header::default()` (HS256)
/// and `EncodingKey::from_secret`. The claims go in as the JSON object
/// `{"exp": .., "sub": ..}`. The contract names the token and claims three
/// things of the call:
/// - it succeeds: key and header are both of the HMAC family, header and
///   claims are written as JSON without fail, and signing with HMAC returns
///   no error;
/// - the token is not empty: it is header, claims and signature joined by
///   dots;
/// - what `encode` signs, `decode` accepts under the same secret, since it
///   recomputes the signature over the same bytes, finds the algorithm of
///   the default header among those it allows, and reads the claims back as
///   JSON.
#[verifier::external_body]
pub(crate) fn sign_claims(claims: &Claims, secret: &str) -> (token: Option<String>)
    ensures
        opt_text(token) == Some(signed_token(claims.exp, claims.sub@, secret@)),
        token matches Some(t) ==> t@.len() > 0,
        token matches Some(t) ==> token_accepted(t@, secret@),
{
    let mut object = serde_json::Map::new();
    object.insert("exp".to_string(), serde_json::Value::from(claims.exp));
    object.insert("sub".to_string(), serde_json::Value::from(claims.sub.as_str()));
    let key = jsonwebtoken::EncodingKey::from_secret(secret.as_bytes());
    jsonwebtoken::encode(&jsonwebtoken::Header::default(), &object, &key).ok()
}

/// Checks a token with `jsonwebtoken::decode`, under `DecodingKey::from_secret`
/// and `Validation::default()` with `validate_exp` switched off: the token
/// must have three parts, a header that names HS256, a signature that matches
/// and claims that are a JSON object. With the expiry left out the answer
/// depends on token and secret alone, and the contract names it. `decode`
/// reads the clock all the same and panics where that stands before 1970.
#[verifier::external_body]
pub(crate) fn token_decodes(token: &str, secret: &str) -> (accepted: bool)
    ensures
        accepted == token_accepted(token@, secret@),
{
    let rules = jsonwebtoken::Validation { validate_exp: false, ..Default::default() };
    let key = jsonwebtoken::DecodingKey::from_secret(secret.as_bytes());
    jsonwebtoken::decode::<serde_json::Value>(token, &key, &rules).is_ok()
}

} // verus!
