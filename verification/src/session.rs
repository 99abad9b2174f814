use vstd::prelude::*;

use crate::error::Error;

verus! {

/// How long a session token stays valid, in seconds: 7 days.
pub const SESSION_DURATION_SECS: u64 = 7 * 24 * 60 * 60;

/// The expiry instant of a session issued at `now` (Unix seconds), with a
/// clock before the epoch treated as the epoch.
pub open spec fn session_expiry(now: i64) -> u64 {
    if now < 0 {
        SESSION_DURATION_SECS
    } else {
        (now + SESSION_DURATION_SECS) as u64
    }
}

/// The signed token that carries the claims `(subject, expiry)` under
/// `secret`. Signing is deterministic in the claims and the secret; any
/// tampering with the result changes what `jwt_claims_of` yields.
pub uninterp spec fn jwt_of(sub: u128, exp: u64, secret: Seq<u8>) -> Seq<char>;

/// The claims `(subject, expiry)` that signature checking recovers from a
/// token under `secret`, or `None` when the encoding is malformed or the
/// signature does not verify. Deterministic in the token and the secret;
/// expiry is not consulted here but judged by the caller against its own
/// clock.
pub uninterp spec fn jwt_claims_of(token: Seq<char>, secret: Seq<u8>) -> Option<(u128, u64)>;

/// Relies on `jsonwebtoken::encode` with an HS256 header: deterministic in
/// the claims and the secret, and `jsonwebtoken::decode` under the same
/// secret recovers exactly the claims that were signed. Encoding always
/// succeeds here: the key family matches the default header's algorithm by
/// construction, HMAC signing is total, and serializing a string-keyed JSON
/// object cannot fail.
#[verifier::external_body]
fn jwt_encode(sub: u128, exp: u64, secret: &[u8]) -> (r: Option<String>)
    ensures
        r is Some,
        r matches Some(t) ==> t@ == jwt_of(sub, exp, secret@) && jwt_claims_of(t@, secret@)
            == Some((sub, exp)),
{
    let mut claims = serde_json::Map::new();
    claims.insert("sub".to_string(), serde_json::Value::from(sub.to_string()));
    claims.insert("exp".to_string(), serde_json::Value::from(exp));
    jsonwebtoken::encode(
        &jsonwebtoken::Header::default(),
        &serde_json::Value::Object(claims),
        &jsonwebtoken::EncodingKey::from_secret(secret),
    ).ok()
}

/// Relies on `jsonwebtoken::decode` restricted to HS256, with the expiry
/// check turned off so that the result depends on the token and the secret
/// alone; the expiry claim itself is still required and returned, and the
/// caller judges it. A bad signature or a malformed token yields `None`.
#[verifier::external_body]
fn jwt_decode(token: &str, secret: &[u8]) -> (r: Option<(u128, u64)>)
    ensures
        r == jwt_claims_of(token@, secret@),
{
    let mut validation = jsonwebtoken::Validation::new(jsonwebtoken::Algorithm::HS256);
    validation.validate_exp = false;
    let key = jsonwebtoken::DecodingKey::from_secret(secret);
    let data = jsonwebtoken::decode::<serde_json::Value>(token, &key, &validation).ok()?;
    let sub = data.claims.get("sub")?.as_str()?.parse::<u128>().ok()?;
    let exp = data.claims.get("exp")?.as_u64()?;
    Some((sub, exp))
}

/// What validating `token` against `secret` at instant `now` yields: the
/// subject when the signature verifies and the expiry has not passed,
/// `Unauthorized` otherwise.
pub open spec fn token_subject(token: Seq<char>, secret: Seq<u8>, now: i64) -> Result<u128, Error> {
    match jwt_claims_of(token, secret) {
        Some((sub, exp)) => if exp as int >= now as int {
            Ok(sub)
        } else {
            Err(Error::Unauthorized)
        },
        None => Err(Error::Unauthorized),
    }
}

/// Validates a session token: fails with `Unauthorized` when the signature
/// is invalid, when the encoding is malformed, or when the expiry instant
/// has passed; otherwise returns the authenticated subject.
pub fn validate_token(token: &str, secret: &[u8], now: i64) -> (r: Result<u128, Error>)
    ensures
        r == token_subject(token@, secret@, now),
{
    match jwt_decode(token, secret) {
        Some((sub, exp)) => {
            if now < 0 || exp >= (now as u64) {
                Ok(sub)
            } else {
                Err(Error::Unauthorized)
            }
        },
        None => Err(Error::Unauthorized),
    }
}

/// What authenticating an `Authorization` header value yields: the scheme
/// prefix must be present, and the rest is validated as a session token.
pub open spec fn authorization_subject(header: Seq<char>, secret: Seq<u8>, now: i64) -> Result<
    u128,
    Error,
> {
    if header.len() >= 3 && header.subrange(0, 3) == "JWT"@ {
        token_subject(header.skip(3), secret, now)
    } else {
        Err(Error::Unauthorized)
    }
}

/// A proof of authenticated identity for one request.
pub struct AuthUser {
    pub user_id: u128,
}

/// The same, where authentication is optional for the handler.
pub struct OptionalAuthUser(pub Option<AuthUser>);

impl AuthUser {
    /// Mints a session token for this identity: claims are
    /// `{subject, now + 7 days}`, signed with the process-wide secret.
    /// Issuance always succeeds: HMAC signing of these claims is total.
    pub fn to_jwt(&self, secret: &[u8], now: i64) -> (r: Result<String, Error>)
        ensures
            r is Ok,
            r matches Ok(t) ==> t@ == jwt_of(self.user_id, session_expiry(now), secret@)
                && jwt_claims_of(t@, secret@) == Some((self.user_id, session_expiry(now))),
    {
        let exp: u64 = if now < 0 {
            SESSION_DURATION_SECS
        } else {
            (now as u64) + SESSION_DURATION_SECS
        };
        match jwt_encode(self.user_id, exp, secret) {
            Some(token) => Ok(token),
            None => Err(Error::InternalServerError),
        }
    }

    /// Authenticates an `Authorization` header value: the `JWT` scheme
    /// prefix followed by a session token. A wrong scheme, a malformed or
    /// tampered token, or a passed expiry all fail with `Unauthorized`.
    pub fn from_authorization(auth_header: &str, secret: &[u8], now: i64) -> (r: Result<
        AuthUser,
        Error,
    >)
        ensures
            r matches Ok(au) ==> authorization_subject(auth_header@, secret@, now) == Ok::<
                u128,
                Error,
            >(au.user_id),
            r matches Err(e) ==> authorization_subject(auth_header@, secret@, now) == Err::<
                u128,
                Error,
            >(e) && e == Error::Unauthorized,
    {
        proof {
            reveal_strlit("JWT");
        }
        let n = auth_header.unicode_len();
        if n < 3 || auth_header.get_char(0) != 'J' || auth_header.get_char(1) != 'W'
            || auth_header.get_char(2) != 'T' {
            proof {
                if auth_header@.len() >= 3 && auth_header@.subrange(0, 3) == "JWT"@ {
                    assert(auth_header@.subrange(0, 3)[0] == 'J');
                    assert(auth_header@.subrange(0, 3)[1] == 'W');
                    assert(auth_header@.subrange(0, 3)[2] == 'T');
                }
            }
            return Err(Error::Unauthorized);
        }
        proof {
            assert(auth_header@.subrange(0, 3) =~= "JWT"@);
        }
        let token = auth_header.substring_char(3, n);
        proof {
            assert(token@ =~= auth_header@.skip(3));
        }
        match validate_token(token, secret, now) {
            Ok(sub) => Ok(AuthUser { user_id: sub }),
            Err(e) => Err(e),
        }
    }
}

impl OptionalAuthUser {
    /// The authenticated identity, if any.
    pub fn user_id(&self) -> (r: Option<u128>)
        ensures
            match self.0 {
                Some(au) => r == Some(au.user_id),
                None => r is None,
            },
    {
        match &self.0 {
            Some(au) => Some(au.user_id),
            None => None,
        }
    }
}

/// A session token that carries an unexpired signature validates to its
/// subject; one whose expiry instant has passed fails with `Unauthorized`,
/// whatever its signature says.
pub proof fn lemma_token_validity(token: Seq<char>, secret: Seq<u8>, now: i64, sub: u128, exp: u64)
    requires
        jwt_claims_of(token, secret) == Some((sub, exp)),
    ensures
        exp as int >= now as int ==> token_subject(token, secret, now) == Ok::<u128, Error>(sub),
        (exp as int) < (now as int) ==> token_subject(token, secret, now) == Err::<u128, Error>(
            Error::Unauthorized,
        ),
{
}

} // verus!
