use vstd::prelude::*;

use crate::error::Error;
use crate::utils::{is_alnum, random_string};

verus! {

/// Length of a CSRF token, in characters.
pub const CSRF_TOKEN_LEN: usize = 32;

/// How long a CSRF pair stays valid, in seconds.
pub const CSRF_TTL_SECS: u64 = 24 * 60 * 60;

/// The expiry instant of a CSRF pair issued at `now` (Unix seconds): 24 hours
/// later, with a clock before the epoch treated as the epoch.
pub open spec fn csrf_expiry(now: i64) -> u64 {
    if now < 0 {
        CSRF_TTL_SECS
    } else {
        (now + CSRF_TTL_SECS) as u64
    }
}

/// A freshly issued double-submit pair: one copy for the transport to hold as
/// an ambient credential (HTTP-only), one copy readable by the client and
/// echoed back on state-changing requests. Both carry the same opaque random
/// value; a cross-origin caller can read neither, so a matching echo proves
/// same-origin intent.
pub struct CsrfPair {
    /// The ambient copy, held by the server-controlled channel.
    pub server_token: String,
    /// The client-readable copy, echoed back by the caller.
    pub client_token: String,
    /// Unix second after which the pair is no longer accepted.
    pub expires_at: u64,
}

impl CsrfPair {
    /// Whether the pair's lifetime has passed at `now`.
    pub fn is_expired(&self, now: i64) -> (r: bool)
        ensures
            r == (now as int > self.expires_at as int),
    {
        now >= 0 && (now as u64) > self.expires_at
    }
}

/// Mints a CSRF pair: one fresh random token of 32 alphanumeric characters,
/// carried in both copies, valid for 24 hours from `now`.
pub fn issue_csrf_pair(now: i64) -> (r: CsrfPair)
    ensures
        r.server_token@ == r.client_token@,
        r.server_token@.len() == CSRF_TOKEN_LEN,
        is_alnum(r.server_token@),
        r.expires_at == csrf_expiry(now),
{
    let token = random_string(CSRF_TOKEN_LEN);
    let copy = token.clone();
    let expires_at: u64 = if now < 0 {
        CSRF_TTL_SECS
    } else {
        (now as u64) + CSRF_TTL_SECS
    };
    CsrfPair { server_token: token, client_token: copy, expires_at }
}

/// The CSRF gate a state-changing request must pass.
pub struct CsrfValidator;

impl CsrfValidator {
    /// The double-submit check: it succeeds exactly when both the ambient
    /// copy and the claimed copy are present and byte-identical. A missing
    /// copy or a mismatch is `Unauthorized`.
    pub fn validate(client_token: Option<&String>, server_token: Option<&String>) -> (r: Result<
        CsrfValidator,
        Error,
    >)
        ensures
            r is Ok <==> (client_token is Some && server_token is Some
                && client_token->Some_0@ == server_token->Some_0@),
            r matches Err(e) ==> e == Error::Unauthorized,
    {
        match (client_token, server_token) {
            (Some(c), Some(s)) => {
                if c.eq(s) {
                    Ok(CsrfValidator)
                } else {
                    Err(Error::Unauthorized)
                }
            },
            _ => Err(Error::Unauthorized),
        }
    }
}

} // verus!
