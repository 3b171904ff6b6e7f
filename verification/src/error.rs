//! Outcomes that the authentication layer reports to its callers.

use vstd::prelude::*;

verus! {

/// Why a credential or token operation did not produce a value.
#[derive(Debug, Clone, Copy, PartialEq, Eq, Structural)]
pub enum AuthError {
    /// The password could not be hashed.
    Hashing,
    /// The signer refused the claims. It never does under a shared secret;
    /// the case is kept so that a refusal could not pass for a token.
    Signing,
    /// The clock reading cannot be written into a token.
    Clock,
    /// The token is not acceptable; the cause is deliberately not told.
    InvalidToken,
}

/// The value of a result that holds a text.
pub open spec fn text_result(r: Result<String, AuthError>) -> Result<Seq<char>, AuthError> {
    match r {
        Ok(text) => Ok(text@),
        Err(e) => Err(e),
    }
}

/// Why a request was turned away before any handler ran.
#[derive(Debug, Clone, Copy, PartialEq, Eq, Structural)]
pub enum AuthRejection {
    /// The request has no `Authorization` header.
    MissingHeader,
    /// The header value is not visible ASCII text.
    UndecodableHeader,
    /// The header value does not start with `Bearer `.
    InvalidFormat,
    /// The token did not validate.
    InvalidToken,
    /// The token's subject is not a user identifier.
    InvalidUserId,
}

/// The HTTP status that every rejection is answered with.
pub const UNAUTHORIZED: u16 = 401;

impl AuthRejection {
    /// The reason text for each rejection.
    pub open spec fn spec_message(self) -> Seq<char> {
        match self {
            AuthRejection::MissingHeader => "No authorization header found"@,
            AuthRejection::UndecodableHeader => "Invalid authorization header"@,
            AuthRejection::InvalidFormat => "Invalid authorization header format"@,
            AuthRejection::InvalidToken => "Invalid token"@,
            AuthRejection::InvalidUserId => "Invalid user ID in token"@,
        }
    }

    /// The short reason sent back with the rejection.
    pub fn message(&self) -> (text: &'static str)
        ensures
            text@ == self.spec_message(),
    {
        match self {
            AuthRejection::MissingHeader => "No authorization header found",
            AuthRejection::UndecodableHeader => "Invalid authorization header",
            AuthRejection::InvalidFormat => "Invalid authorization header format",
            AuthRejection::InvalidToken => "Invalid token",
            AuthRejection::InvalidUserId => "Invalid user ID in token",
        }
    }

    /// The HTTP status of the rejection: always 401.
    pub fn status_code(&self) -> (code: u16)
        ensures
            code == UNAUTHORIZED,
    {
        UNAUTHORIZED
    }
}

} // verus!
