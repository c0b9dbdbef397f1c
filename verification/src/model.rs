//! Data model: the signing key material, the claims carried inside a token,
//! and the wire shapes of the credential submission and the issuance response.

use vstd::prelude::*;
use vstd::slice::slice_to_vec;
use vstd::string::*;

verus! {

#[verifier::external_type_specification]
#[verifier::external_body]
pub struct ExEncodingKey(jsonwebtoken::EncodingKey);

#[verifier::external_type_specification]
#[verifier::external_body]
pub struct ExDecodingKey(jsonwebtoken::DecodingKey);

/// Relies on `jsonwebtoken::EncodingKey::from_secret`: derives the HMAC
/// signing handle from a raw secret. The handle is opaque here; which secret
/// it came from is tracked by the `secret` field of [`Keys`].
pub assume_specification[ jsonwebtoken::EncodingKey::from_secret ](
    secret: &[u8],
) -> jsonwebtoken::EncodingKey;

/// Relies on `jsonwebtoken::DecodingKey::from_secret`: derives the HMAC
/// verifying handle from a raw secret, as above.
pub assume_specification[ jsonwebtoken::DecodingKey::from_secret ](
    secret: &[u8],
) -> jsonwebtoken::DecodingKey;

/// The symmetric signing secret together with the two key handles derived
/// from it: one used only to produce signatures, one used only to verify
/// them. Built once at process start and never mutated afterwards.
///
/// Its view is the secret byte sequence; every contract about what a key
/// signs or verifies is stated over that sequence. The fields stay private so
/// that the handles can only ever be the ones derived from the stored secret.
pub struct Keys {
    pub(crate) secret: Vec<u8>,
    pub(crate) encoding: jsonwebtoken::EncodingKey,
    pub(crate) decoding: jsonwebtoken::DecodingKey,
}

impl View for Keys {
    type V = Seq<u8>;

    closed spec fn view(&self) -> Seq<u8> {
        self.secret@
    }
}

impl Keys {
    /// Derives the signing and verifying handles from `secret`.
    ///
    /// A process without a configured secret must fail at startup, never run
    /// with a silent default, so an empty secret is ruled out here.
    pub fn new(secret: &[u8]) -> (r: Self)
        requires
            secret@.len() > 0,
        ensures
            r@ == secret@,
    {
        Keys {
            secret: slice_to_vec(secret),
            encoding: jsonwebtoken::EncodingKey::from_secret(secret),
            decoding: jsonwebtoken::DecodingKey::from_secret(secret),
        }
    }
}

/// The identity payload embedded in a token: subject, organization, and the
/// absolute expiry as a Unix timestamp in seconds. Immutable once built; the
/// expiry is checked at decode time and never refreshed.
#[derive(Debug)]
pub struct Claims {
    pub sub: String,
    pub company: String,
    pub exp: usize,
}

impl Claims {
    /// The human-readable form of the claims, as shown by the protected
    /// route.
    pub fn render(&self) -> (r: String)
        ensures
            r@ == "Email: "@ + self.sub@ + "\nCompany: "@ + self.company@,
    {
        let mut s = String::from_str("Email: ");
        s.append(self.sub.as_str());
        s.append("\nCompany: ");
        s.append(self.company.as_str());
        s
    }
}

/// The issuance response: the minted token and the fixed token type.
#[derive(Debug)]
pub struct AuthBody {
    pub access_token: String,
    pub token_type: String,
}

impl AuthBody {
    /// Wraps a minted token; the token type is always `Bearer`.
    pub fn new(access_token: String) -> (r: Self)
        ensures
            r.access_token@ == access_token@,
            r.token_type@ == "Bearer"@,
    {
        AuthBody { access_token, token_type: String::from_str("Bearer") }
    }
}

/// The submitted credential pair; both fields are required to be non-empty
/// for issuance to proceed.
#[derive(Debug)]
pub struct AuthPayload {
    pub client_id: String,
    pub client_secret: String,
}

} // verus!
