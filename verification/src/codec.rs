//! Token codec: mints a signed, self-contained token string from claims, and
//! validates such a string back into claims, checking signature and expiry.
//!
//! The wire format is the standard compact signed-token encoding: three
//! dot-separated base64url segments (header, payload, signature), signed with
//! HMAC-SHA256. The algorithm identity travels in the header segment, so a
//! token signed under another algorithm is rejected at validation.

use crate::errors::{DecodeError, EncodeError};
use crate::model::{Claims, Keys};
use jsonwebtoken::errors::ErrorKind;
use jsonwebtoken::{Algorithm, Header, Validation};
use serde_json::Value;
use vstd::prelude::*;

verus! {

/// The token minted for the given claim fields under the given secret.
///
/// Minting is a deterministic function of these arguments alone: the fixed
/// header and the three claim fields are serialized to canonical JSON,
/// base64url-encoded and HMAC-SHA256-signed with the secret.
pub uninterp spec fn token_of(sub: Seq<char>, company: Seq<char>, exp: nat, secret: Seq<u8>) -> Seq<
    char,
>;

/// The claim fields carried by a token whose structure parses and whose
/// signature verifies under the given secret, or `None` where parsing or
/// verification fails.
///
/// A deterministic function of these arguments alone: the expiry field is
/// recovered but deliberately not judged here, so that the time-dependent
/// expiry check can be stated separately.
pub uninterp spec fn claims_in(token: Seq<char>, secret: Seq<u8>) -> Option<
    (Seq<char>, Seq<char>, nat),
>;

/// Relies on `jsonwebtoken::encode` with the default HS256 header: signing
/// with an HMAC secret key has no failure path, the token is a deterministic,
/// non-empty function of the claim fields and the signing secret, and
/// `jsonwebtoken::decode` under the same secret recovers exactly those fields
/// from it.
#[verifier::external_body]
fn jwt_encode(claims: &Claims, key: &Keys) -> (r: Result<String, EncodeError>)
    ensures
        r is Ok,
        r matches Ok(t) ==> t@ == token_of(claims.sub@, claims.company@, claims.exp as nat, key@),
        r matches Ok(t) ==> t@.len() > 0,
        r matches Ok(t) ==> claims_in(t@, key@) == Some(
            (claims.sub@, claims.company@, claims.exp as nat),
        ),
{
    let mut m = serde_json::Map::new();
    m.insert("sub".to_string(), Value::String(claims.sub.clone()));
    m.insert("company".to_string(), Value::String(claims.company.clone()));
    m.insert("exp".to_string(), Value::from(claims.exp as u64));
    jsonwebtoken::encode(&Header::default(), &Value::Object(m), &key.encoding)
        .map_err(|_| EncodeError::SigningFailed)
}

/// Relies on `jsonwebtoken::decode` with expiry validation switched off: it
/// parses the token, verifies the HMAC-SHA256 signature against the secret's
/// verifying handle (rejecting other algorithms), and hands back the three
/// claim fields. The error only ever tells a bad signature apart from a
/// malformed structure; expiry is judged by the caller.
#[verifier::external_body]
fn jwt_verify(token: &str, key: &Keys) -> (r: Result<Claims, DecodeError>)
    ensures
        match claims_in(token@, key@) {
            Some(f) => r matches Ok(c) && c.sub@ == f.0 && c.company@ == f.1 && c.exp as nat
                == f.2,
            None => r matches Err(e) && (e == DecodeError::Malformed || e
                == DecodeError::SignatureInvalid),
        },
{
    let mut v = Validation::new(Algorithm::HS256);
    v.validate_exp = false;
    let data = jsonwebtoken::decode::<Value>(token, &key.decoding, &v).map_err(|e| match e.kind() {
        ErrorKind::InvalidSignature => DecodeError::SignatureInvalid,
        _ => DecodeError::Malformed,
    })?;
    let fields = (data.claims.get("sub"), data.claims.get("company"), data.claims.get("exp"));
    match (fields.0.and_then(Value::as_str), fields.1.and_then(Value::as_str), fields.2.and_then(Value::as_u64)) {
        (Some(s), Some(c), Some(e)) => Ok(Claims { sub: s.into(), company: c.into(), exp: e as usize }),
        _ => Err(DecodeError::Malformed),
    }
}

/// Serializes the claims into the canonical structured form and signs them
/// with the signing handle of the key material.
///
/// [`EncodeError::SigningFailed`] is reserved for underlying cryptographic
/// failure, and the HMAC backend has none, so success is owed: the token is
/// exactly the non-empty one minting produces for these fields under this
/// secret, and validation under the same secret recovers the fields.
pub fn encode(claims: &Claims, key: &Keys) -> (r: Result<String, EncodeError>)
    ensures
        r is Ok,
        r matches Ok(t) ==> t@ == token_of(claims.sub@, claims.company@, claims.exp as nat, key@),
        r matches Ok(t) ==> t@.len() > 0,
        r matches Ok(t) ==> claims_in(t@, key@) == Some(
            (claims.sub@, claims.company@, claims.exp as nat),
        ),
{
    jwt_encode(claims, key)
}

/// Parses and verifies a token against the verifying handle of the key
/// material, then checks that its expiry is not in the past of `now`.
///
/// Returns the recovered claims exactly when the token carries verifiable
/// claim fields whose expiry is at least `now`; fails with
/// [`DecodeError::Expired`] when the fields verify but the expiry has passed,
/// and with [`DecodeError::Malformed`] or [`DecodeError::SignatureInvalid`]
/// when they do not verify at all.
pub fn decode(token: &str, key: &Keys, now: usize) -> (r: Result<Claims, DecodeError>)
    ensures
        match claims_in(token@, key@) {
            Some(f) => {
                &&& f.2 >= now as nat ==> (r matches Ok(c) && c.sub@ == f.0 && c.company@ == f.1
                    && c.exp as nat == f.2)
                &&& f.2 < now as nat ==> (r matches Err(e) && e == DecodeError::Expired)
            },
            None => r matches Err(e) && (e == DecodeError::Malformed || e
                == DecodeError::SignatureInvalid),
        },
{
    match jwt_verify(token, key) {
        Ok(c) => {
            if c.exp >= now {
                Ok(c)
            } else {
                Err(DecodeError::Expired)
            }
        },
        Err(e) => Err(e),
    }
}

/// Round trip: a token minted from valid claims decodes, under the same key
/// and any point in time not past the expiry, to claims equal field for field
/// to the ones minted.
pub fn encode_then_decode(claims: &Claims, key: &Keys, now: usize) -> (r: Claims)
    requires
        now <= claims.exp,
    ensures
        r.sub@ == claims.sub@,
        r.company@ == claims.company@,
        r.exp == claims.exp,
{
    let t = match encode(claims, key) {
        Ok(t) => t,
        Err(_) => unreached(),
    };
    match decode(t.as_str(), key, now) {
        Ok(c) => c,
        Err(_) => unreached(),
    }
}

/// Expiry: a token minted with an expiry in the past of `now` never decodes
/// at `now`, even though its signature verifies; the failure is always the
/// expiry one.
pub fn expired_token_rejected(claims: &Claims, key: &Keys, now: usize) -> (r: DecodeError)
    requires
        claims.exp < now,
    ensures
        r == DecodeError::Expired,
{
    let t = match encode(claims, key) {
        Ok(t) => t,
        Err(_) => unreached(),
    };
    match decode(t.as_str(), key, now) {
        Ok(_) => unreached(),
        Err(e) => e,
    }
}

} // verus!
