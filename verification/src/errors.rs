//! Error taxonomy of the authentication flow, with the fixed external status
//! code and message of each kind.

use vstd::prelude::*;
use vstd::string::*;

verus! {

/// The externally visible failure kinds of issuance and validation.
///
/// The decode sub-reasons of [`crate::errors::DecodeError`] are never
/// surfaced: they all collapse to `InvalidToken`, so that a caller cannot
/// probe which check a bad token failed.
#[derive(Debug, Clone, Copy, PartialEq, Eq)]
pub enum AuthError {
    WrongCredentials,
    MissingCredentials,
    TokenCreation,
    InvalidToken,
}

/// Failure of token minting: the underlying cryptographic signing failed.
#[derive(Debug, Clone, Copy, PartialEq, Eq)]
pub enum EncodeError {
    SigningFailed,
}

/// Internal diagnostics of token validation; never shown to a caller.
#[derive(Debug, Clone, Copy, PartialEq, Eq)]
pub enum DecodeError {
    /// The token's structure could not be parsed.
    Malformed,
    /// The signature does not match the key material.
    SignatureInvalid,
    /// The token's expiry lies in the past.
    Expired,
}

/// The fixed HTTP-status-equivalent of each error kind.
pub open spec fn spec_status_code(e: AuthError) -> u16 {
    match e {
        AuthError::WrongCredentials => 401,
        AuthError::MissingCredentials => 400,
        AuthError::TokenCreation => 500,
        AuthError::InvalidToken => 400,
    }
}

/// The fixed external message of each error kind.
pub open spec fn spec_message(e: AuthError) -> Seq<char> {
    match e {
        AuthError::WrongCredentials => "Wrong credentials"@,
        AuthError::MissingCredentials => "Missing credentials"@,
        AuthError::TokenCreation => "Token creation error"@,
        AuthError::InvalidToken => "Invalid token"@,
    }
}

impl AuthError {
    /// The HTTP-status-equivalent under which this error is reported.
    pub fn status_code(&self) -> (r: u16)
        ensures
            r == spec_status_code(*self),
    {
        match self {
            AuthError::WrongCredentials => 401,
            AuthError::MissingCredentials => 400,
            AuthError::TokenCreation => 500,
            AuthError::InvalidToken => 400,
        }
    }

    /// The fixed message reported for this error.
    pub fn message(&self) -> (r: &'static str)
        ensures
            r@ == spec_message(*self),
    {
        match self {
            AuthError::WrongCredentials => "Wrong credentials",
            AuthError::MissingCredentials => "Missing credentials",
            AuthError::TokenCreation => "Token creation error",
            AuthError::InvalidToken => "Invalid token",
        }
    }

    /// The JSON body reported for this error: an object with the single
    /// field `error` holding the fixed message.
    pub fn body(&self) -> (r: String)
        ensures
            r@ == "{\"error\":\""@ + spec_message(*self) + "\"}"@,
    {
        let mut s = String::from_str("{\"error\":\"");
        s.append(self.message());
        s.append("\"}");
        s
    }
}

} // verus!
