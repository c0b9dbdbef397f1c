//! Credential authorizer and the protected route: exchanging a credential
//! pair for a minted token, and the response built from validated claims.

use crate::codec;
use crate::codec::{claims_in, token_of};
use crate::errors::AuthError;
use crate::model::{AuthBody, AuthPayload, Claims, Keys};
use vstd::prelude::*;
use vstd::string::*;

verus! {

/// The fixed expiry stamped into issued tokens, as an absolute Unix
/// timestamp: a placeholder far in the future, standing in for `now` plus a
/// configured lifetime.
pub const TOKEN_EXPIRY: usize = 2000000000;

/// Whether the identity source accepts the pair. It accepts exactly one
/// fixed pair, standing in for an external identity store.
pub open spec fn spec_valid_credentials(client_id: Seq<char>, client_secret: Seq<char>) -> bool {
    client_id == "foo"@ && client_secret == "bar"@
}

/// The illustrative identity check: a stand-in for an external identity
/// store, accepting exactly one fixed credential pair.
pub fn credentials_valid(client_id: &String, client_secret: &String) -> (r: bool)
    ensures
        r == spec_valid_credentials(client_id@, client_secret@),
{
    *client_id == String::from_str("foo") && *client_secret == String::from_str("bar")
}

/// Exchanges a credential pair for a signed token.
///
/// Fails with [`AuthError::MissingCredentials`] exactly when either field is
/// empty, and with [`AuthError::WrongCredentials`] exactly when both are
/// present but the identity source rejects the pair. Otherwise it succeeds:
/// it mints the token for the fixed subject and organization with the fixed
/// expiry — non-empty, and owed because HMAC signing has no failure path —
/// and wraps it as a `Bearer` response. [`AuthError::TokenCreation`] is
/// reserved for a signing backend that can fail.
pub fn authorize(payload: &AuthPayload, key: &Keys) -> (r: Result<AuthBody, AuthError>)
    ensures
        (payload.client_id@.len() == 0 || payload.client_secret@.len() == 0) ==> (r matches Err(e)
            && e == AuthError::MissingCredentials),
        (payload.client_id@.len() > 0 && payload.client_secret@.len() > 0
            && !spec_valid_credentials(payload.client_id@, payload.client_secret@)) ==> (
        r matches Err(e) && e == AuthError::WrongCredentials),
        (payload.client_id@.len() > 0 && payload.client_secret@.len() > 0
            && spec_valid_credentials(payload.client_id@, payload.client_secret@)) ==> (
        r matches Ok(b) && b.access_token@ == token_of(
            "b@b.com"@,
            "ACME"@,
            TOKEN_EXPIRY as nat,
            key@,
        ) && b.access_token@.len() > 0 && claims_in(b.access_token@, key@) == Some(
            ("b@b.com"@, "ACME"@, TOKEN_EXPIRY as nat),
        ) && b.token_type@ == "Bearer"@),
{
    if payload.client_id.as_str().is_empty() || payload.client_secret.as_str().is_empty() {
        return Err(AuthError::MissingCredentials);
    }
    if !credentials_valid(&payload.client_id, &payload.client_secret) {
        return Err(AuthError::WrongCredentials);
    }
    let claims = Claims {
        sub: String::from_str("b@b.com"),
        company: String::from_str("ACME"),
        exp: TOKEN_EXPIRY,
    };
    match codec::encode(&claims, key) {
        Ok(token) => Ok(AuthBody::new(token)),
        Err(_) => Err(AuthError::TokenCreation),
    }
}

/// The protected route: builds the greeting shown to an authenticated caller
/// from their validated claims. It never fails; it exists behind
/// authentication.
pub fn protected(claims: &Claims) -> (r: Result<String, AuthError>)
    ensures
        r matches Ok(s) && s@ == "Welcome to the protected area :)\nYour data:\n"@ + (
        "Email: "@ + claims.sub@ + "\nCompany: "@ + claims.company@),
{
    let mut s = String::from_str("Welcome to the protected area :)\nYour data:\n");
    let body = claims.render();
    s.append(body.as_str());
    Ok(s)
}

/// End to end: issuance followed immediately by authentication with the
/// returned token succeeds and yields claims equal to those encoded at
/// issuance.
pub fn issue_then_authenticate(payload: &AuthPayload, key: &Keys, now: usize) -> (r: Claims)
    requires
        spec_valid_credentials(payload.client_id@, payload.client_secret@),
        now <= TOKEN_EXPIRY,
    ensures
        r.sub@ == "b@b.com"@,
        r.company@ == "ACME"@,
        r.exp == TOKEN_EXPIRY,
{
    proof {
        reveal_strlit("foo");
        reveal_strlit("bar");
    }
    let body = match authorize(payload, key) {
        Ok(b) => b,
        Err(_) => unreached(),
    };
    let mut header = String::from_str("Bearer ");
    header.append(body.access_token.as_str());
    proof {
        reveal_strlit("Bearer ");
        assert(header@.subrange(0, 7) =~= "Bearer "@);
        assert(header@.subrange(7, header@.len() as int) =~= body.access_token@);
    }
    match crate::auth::authenticate(Some(header.as_str()), key, now) {
        Ok(c) => c,
        Err(_) => unreached(),
    }
}

} // verus!
