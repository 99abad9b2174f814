use vstd::prelude::*;

verus! {

/// The error taxonomy of the account backend. Every fallible operation of the
/// library reports one of these domain-level errors; low-level failures are
/// never leaked to callers.
#[derive(Clone, Copy, Debug, PartialEq, Eq, Structural)]
pub enum Error {
    /// Bad credentials, or an invalid, expired or malformed session token.
    Unauthorized,
    /// The caller is authenticated but not entitled, or the verification
    /// token does not match.
    Forbidden,
    /// The requested account does not exist.
    NotFound,
    /// A store, hashing or mail failure; reported generically.
    InternalServerError,
    /// The username or email is already taken.
    Conflict,
}

impl Error {
    /// The HTTP status code that each error maps to.
    pub fn status_code(&self) -> (code: u16)
        ensures
            code == self.spec_status_code(),
    {
        match self {
            Error::Unauthorized => 401,
            Error::Forbidden => 403,
            Error::NotFound => 404,
            Error::InternalServerError => 500,
            Error::Conflict => 409,
        }
    }

    pub open spec fn spec_status_code(&self) -> u16 {
        match self {
            Error::Unauthorized => 401,
            Error::Forbidden => 403,
            Error::NotFound => 404,
            Error::InternalServerError => 500,
            Error::Conflict => 409,
        }
    }

    /// What `message` says of each error.
    pub open spec fn spec_message(&self) -> Seq<char> {
        match self {
            Error::Unauthorized => "authentication required"@,
            Error::Forbidden => "user may not perform that action"@,
            Error::NotFound => "request path not found"@,
            Error::InternalServerError => "an internal server error occurred"@,
            Error::Conflict => "conflict, resource already exists"@,
        }
    }

    /// A short machine-stable message for the caller.
    pub fn message(&self) -> (r: &'static str)
        ensures
            r@ == self.spec_message(),
    {
        match self {
            Error::Unauthorized => "authentication required",
            Error::Forbidden => "user may not perform that action",
            Error::NotFound => "request path not found",
            Error::InternalServerError => "an internal server error occurred",
            Error::Conflict => "conflict, resource already exists",
        }
    }
}

} // verus!
