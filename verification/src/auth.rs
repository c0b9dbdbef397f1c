//! Request authenticator: extracts the bearer token from an inbound request's
//! authorization header and validates it, producing claims for downstream use
//! or a uniform rejection.

use crate::codec;
use crate::codec::claims_in;
use crate::errors::AuthError;
use crate::model::{Claims, Keys};
use vstd::prelude::*;
use vstd::string::*;

verus! {

/// Whether the header value begins with the `Bearer ` scheme: the scheme
/// name matched case-insensitively, as header parsers match authorization
/// schemes, followed by exactly one space.
pub open spec fn spec_bearer_scheme(header: Seq<char>) -> bool {
    &&& header.len() >= 7
    &&& (header[0] == 'B' || header[0] == 'b')
    &&& (header[1] == 'E' || header[1] == 'e')
    &&& (header[2] == 'A' || header[2] == 'a')
    &&& (header[3] == 'R' || header[3] == 'r')
    &&& (header[4] == 'E' || header[4] == 'e')
    &&& (header[5] == 'R' || header[5] == 'r')
    &&& header[6] == ' '
}

/// The token carried by an authorization header value: the rest of the value
/// after the `Bearer ` scheme, or `None` where the scheme is missing.
pub open spec fn spec_bearer_token(header: Seq<char>) -> Option<Seq<char>> {
    if spec_bearer_scheme(header) {
        Some(header.subrange(7, header.len() as int))
    } else {
        None
    }
}

/// Strips the `Bearer ` scheme from an authorization header value; `None`
/// where the value does not start with that scheme.
pub fn extract_bearer(header: &str) -> (r: Option<&str>)
    ensures
        r matches Some(t) ==> spec_bearer_token(header@) == Some(t@),
        r is None ==> spec_bearer_token(header@) is None,
{
    let n: usize = header.unicode_len();
    if n < 7 {
        return None;
    }
    let scheme_ok = (header.get_char(0) == 'B' || header.get_char(0) == 'b') && (header.get_char(1)
        == 'E' || header.get_char(1) == 'e') && (header.get_char(2) == 'A' || header.get_char(2)
        == 'a') && (header.get_char(3) == 'R' || header.get_char(3) == 'r') && (header.get_char(4)
        == 'E' || header.get_char(4) == 'e') && (header.get_char(5) == 'R' || header.get_char(5)
        == 'r') && header.get_char(6) == ' ';
    if scheme_ok {
        Some(header.substring_char(7, n))
    } else {
        None
    }
}

/// Validates an inbound request, given as the value of its `Authorization`
/// header (or `None` where the request carries no such header), against the
/// process's key material at time `now`.
///
/// Returns the claims carried by the request's bearer token exactly when the
/// header is present, carries the `Bearer` scheme (matched
/// case-insensitively), and the token verifies
/// under the key with an expiry of at least `now`. Every failure — absent
/// header, wrong scheme, malformed token, bad signature, or passed expiry —
/// is reported as the single [`AuthError::InvalidToken`], so that a caller
/// cannot probe which check a bad request failed.
pub fn authenticate(authorization: Option<&str>, key: &Keys, now: usize) -> (r: Result<
    Claims,
    AuthError,
>)
    ensures
        match authorization {
            None => r matches Err(e) && e == AuthError::InvalidToken,
            Some(h) => match spec_bearer_token(h@) {
                None => r matches Err(e) && e == AuthError::InvalidToken,
                Some(tok) => match claims_in(tok, key@) {
                    Some(f) => {
                        &&& f.2 >= now as nat ==> (r matches Ok(c) && c.sub@ == f.0 && c.company@
                            == f.1 && c.exp as nat == f.2)
                        &&& f.2 < now as nat ==> (r matches Err(e) && e == AuthError::InvalidToken)
                    },
                    None => r matches Err(e) && e == AuthError::InvalidToken,
                },
            },
        },
{
    match authorization {
        None => Err(AuthError::InvalidToken),
        Some(h) => match extract_bearer(h) {
            None => Err(AuthError::InvalidToken),
            Some(token) => match codec::decode(token, key, now) {
                Ok(claims) => Ok(claims),
                Err(_) => Err(AuthError::InvalidToken),
            },
        },
    }
}

} // verus!
