//! Issuance and verification of signed, time-bounded session tokens.
//!
//! A token is a JWT signed with a symmetric MAC (HS256) over the claim set
//! `{sub, exp}`. What `jsonwebtoken::encode` returns is a deterministic
//! function of the secret, the subject and the expiry, named by [`jwt_of`].
//! Decoding also checks the expiry against the clock, so nothing promises
//! that decoding succeeds; what holds of every outcome is that a token
//! issued for one subject never decodes to another, which is what post
//! authorization rests on.

use vstd::prelude::*;

verus! {

/// The token `jsonwebtoken::encode` returns for the claim set
/// `{sub: subject, exp: expiry}` under `Header::default()` (HS256) and the
/// HMAC key built from `secret`: base64 of the serialized header and claims,
/// dot-joined with the HMAC signature, a function of the three arguments
/// alone.
pub uninterp spec fn jwt_of(secret: Seq<u8>, subject: Seq<char>, expiry: i64) -> Seq<char>;

/// The expiry stamped into every token by default, an absolute timestamp
/// early in the year 2030. Effectively unbounded validity is a known
/// security gap: there is no revocation, so a leaked token stays good until
/// then. Kept as a default, not hard-wired: the backend takes the expiry as
/// configuration.
pub const DEFAULT_TOKEN_EXPIRY: i64 = 1893423600;

/// Relies on `jsonwebtoken::encode` with `Header::default()` (HS256) and
/// `EncodingKey::from_secret`: serialization of the fixed claim shape and
/// HMAC signing are deterministic, and neither fails for an HMAC key, so the
/// call returns the token named by [`jwt_of`].
#[verifier::external_body]
fn encode_token(secret: &Vec<u8>, subject: &String, expiry: i64) -> (token: String)
    ensures
        token@ == jwt_of(secret@, subject@, expiry),
{
    let key = jsonwebtoken::EncodingKey::from_secret(secret.as_slice());
    let mut claims = serde_json::Map::new();
    claims.insert("sub".to_string(), serde_json::Value::String(subject.clone()));
    claims.insert("exp".to_string(), serde_json::Value::from(expiry));
    let claims = serde_json::Value::Object(claims);
    jsonwebtoken::encode(&jsonwebtoken::Header::default(), &claims, &key).unwrap()
}

/// Relies on `jsonwebtoken::decode` with `Validation::new(HS256)` and
/// `DecodingKey::from_secret`: it verifies the HMAC signature over the exact
/// token text and the expiry against the clock, then hands back the claim
/// set. On a token issued by [`encode_token`] under the same secret the
/// signature verifies and the claims deserialize to exactly the subject and
/// expiry it was issued with, so the call returns those or, once the expiry
/// has passed, nothing. Of any other token nothing is promised.
#[verifier::external_body]
fn decode_token(secret: &Vec<u8>, token: &String) -> (r: Option<(String, i64)>)
    ensures
        r matches Some(c) ==> forall|subject: Seq<char>, expiry: i64|
            token@ == #[trigger] jwt_of(secret@, subject, expiry)
                ==> c.0@ == subject && c.1 == expiry,
{
    let key = jsonwebtoken::DecodingKey::from_secret(secret.as_slice());
    let validation = jsonwebtoken::Validation::new(jsonwebtoken::Algorithm::HS256);
    let data: Result<jsonwebtoken::TokenData<serde_json::Value>, _> =
        jsonwebtoken::decode(token.as_str(), &key, &validation);
    match data {
        Ok(t) => match (t.claims.get("sub"), t.claims.get("exp")) {
            (Some(s), Some(e)) => match (s.as_str(), e.as_i64()) {
                (Some(s), Some(e)) => Some((s.to_string(), e)),
                _ => None,
            },
            _ => None,
        },
        Err(_) => None,
    }
}

/// Issues a signed token whose subject is `name`.
pub fn make_jwt(secret: &Vec<u8>, name: &String, expiry: i64) -> (token: String)
    ensures
        token@ == jwt_of(secret@, name@, expiry),
{
    encode_token(secret, name, expiry)
}

/// The decoded claim set carries `name` as its subject.
pub fn subject_matches(name: &String, claims: &Option<(String, i64)>) -> (r: bool)
    ensures
        r == (claims matches Some(c) && c.0@ == name@),
{
    match claims {
        Some(c) => c.0 == *name,
        None => false,
    }
}

/// Checks that `jwt` is a valid token whose subject is `name`: the signature
/// must verify under `secret`, the expiry must not have passed, and the
/// decoded subject must equal `name` exactly. A token issued for any other
/// subject is always refused; whether a genuine token for `name` is accepted
/// depends on the clock, so nothing is promised of it.
pub fn check_jwt(secret: &Vec<u8>, name: &String, jwt: &String) -> (r: bool)
    ensures
        forall|subject: Seq<char>, expiry: i64|
            jwt@ == #[trigger] jwt_of(secret@, subject, expiry) && subject != name@ ==> !r,
{
    let claims = decode_token(secret, jwt);
    subject_matches(name, &claims)
}

} // verus!
