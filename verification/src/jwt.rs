//! Signed tokens.
//!
//! Two token classes share one shape: a subject id, an absolute expiry,
//! and a flag marking refresh tokens. Tokens are stateless: decoding
//! checks structure and signature only, and liveness is decode success
//! plus the clock standing strictly before the embedded expiry.

use vstd::prelude::*;

use crate::errors::AuthError;

verus! {

/// Minutes an access token stays live.
pub const ACCESS_TOKEN_MINUTES: u64 = 60;

/// Minutes a refresh token stays live: seven days.
pub const REFRESH_TOKEN_MINUTES: u64 = 10080;

/// Seconds an access token stays live.
pub const ACCESS_TOKEN_SECONDS: u64 = 3600;

/// Seconds a refresh token stays live.
pub const REFRESH_TOKEN_SECONDS: u64 = 604800;

/// The payload carried by every token.
#[derive(Clone, Copy, Debug, PartialEq, Eq, Structural)]
pub struct Claims {
    pub sub: i64,
    pub exp: u64,
    pub refresh: bool,
}

/// The signed token text produced for a secret and a set of claims:
/// named after jsonwebtoken's `encode` with an HMAC-SHA256 key, a
/// function of its arguments alone.
pub uninterp spec fn jwt_of(secret: Seq<char>, sub: i64, exp: u64, refresh: bool) -> Seq<char>;

/// The claims recovered from a token under a secret, or `None` where the
/// token is structurally malformed or its signature does not match:
/// named after jsonwebtoken's `decode`, run without expiry validation,
/// a function of its arguments alone.
pub uninterp spec fn jwt_claims_of(secret: Seq<char>, token: Seq<char>) -> Option<Claims>;

/// A token both decodable and unexpired at `now`.
pub open spec fn token_live(secret: Seq<char>, token: Seq<char>, now: u64) -> bool {
    match jwt_claims_of(secret, token) {
        Some(c) => now < c.exp,
        None => false,
    }
}

/// A clock value far enough from overflow for every expiry this engine
/// computes.
pub open spec fn time_fits(now: u64) -> bool {
    now + REFRESH_TOKEN_SECONDS <= u64::MAX
}

/// Relies on jsonwebtoken's `encode` with an HMAC-SHA256 key: the token
/// is a function of the secret and the claims alone, and `decode` with
/// the same secret recovers exactly those claims. Signing succeeds:
/// HMAC-SHA256 itself cannot fail, the key family always matches, and
/// serializing this string-keyed claims object cannot fail either.
#[verifier::external_body]
fn jwt_encode(secret: &str, sub: i64, exp: u64, refresh: bool) -> (r: Result<String, ()>)
    ensures
        r is Ok,
        r matches Ok(t) ==> t@ == jwt_of(secret@, sub, exp, refresh),
        r matches Ok(t) ==> jwt_claims_of(secret@, t@) == Some(Claims { sub, exp, refresh }),
{
    let key = jsonwebtoken::EncodingKey::from_secret(secret.as_bytes());
    let header = jsonwebtoken::Header::new(jsonwebtoken::Algorithm::HS256);
    let mut claims = serde_json::Map::new();
    claims.insert("sub".to_string(), serde_json::Value::from(sub));
    claims.insert("exp".to_string(), serde_json::Value::from(exp));
    claims.insert("refresh".to_string(), serde_json::Value::from(refresh));
    jsonwebtoken::encode(&header, &serde_json::Value::Object(claims), &key).map_err(|_| ())
}

/// Relies on jsonwebtoken's `decode` with an HMAC-SHA256 key, expiry
/// validation off and no required claims: success and the returned
/// claims depend on the secret and the token text alone.
#[verifier::external_body]
fn jwt_decode(secret: &str, token: &str) -> (r: Option<Claims>)
    ensures
        r == jwt_claims_of(secret@, token@),
{
    let key = jsonwebtoken::DecodingKey::from_secret(secret.as_bytes());
    let mut validation = jsonwebtoken::Validation::new(jsonwebtoken::Algorithm::HS256);
    validation.validate_exp = false;
    validation.required_spec_claims.clear();
    let data = jsonwebtoken::decode::<serde_json::Value>(token, &key, &validation).ok()?;
    let sub = data.claims.get("sub").and_then(|v| v.as_i64())?;
    let exp = data.claims.get("exp").and_then(|v| v.as_u64())?;
    let refresh = data.claims.get("refresh").and_then(|v| v.as_bool())?;
    Some(Claims { sub, exp, refresh })
}

pub struct JWTService;

impl JWTService {
    /// The absolute expiry for a token issued at `now` living `minutes`.
    pub fn calculate_exp(now: u64, minutes: u64) -> (r: u64)
        requires
            now + minutes * 60 <= u64::MAX,
        ensures
            r == now + minutes * 60,
    {
        now + minutes * 60
    }

    /// Issues an access token for `user_id`, live for one hour from `now`.
    pub fn generate(secret: &str, user_id: i32, now: u64) -> (r: Result<String, AuthError>)
        requires
            time_fits(now),
        ensures
            r matches Ok(t) ==> t@ == jwt_of(
                secret@,
                user_id as i64,
                (now + ACCESS_TOKEN_SECONDS) as u64,
                false,
            ),
            r matches Ok(t) ==> jwt_claims_of(secret@, t@) == Some(Claims {
                sub: user_id as i64,
                exp: (now + ACCESS_TOKEN_SECONDS) as u64,
                refresh: false,
            }),
            r is Ok,
    {
        let exp = Self::calculate_exp(now, ACCESS_TOKEN_MINUTES);
        match jwt_encode(secret, user_id as i64, exp, false) {
            Ok(t) => Ok(t),
            Err(_) => Err(AuthError::Upstream),
        }
    }

    /// Issues a refresh token for `user_id`, live for seven days from `now`.
    pub fn generate_refresh(secret: &str, user_id: i32, now: u64) -> (r: Result<
        String,
        AuthError,
    >)
        requires
            time_fits(now),
        ensures
            r matches Ok(t) ==> t@ == jwt_of(
                secret@,
                user_id as i64,
                (now + REFRESH_TOKEN_SECONDS) as u64,
                true,
            ),
            r matches Ok(t) ==> jwt_claims_of(secret@, t@) == Some(Claims {
                sub: user_id as i64,
                exp: (now + REFRESH_TOKEN_SECONDS) as u64,
                refresh: true,
            }),
            r is Ok,
    {
        let exp = Self::calculate_exp(now, REFRESH_TOKEN_MINUTES);
        match jwt_encode(secret, user_id as i64, exp, true) {
            Ok(t) => Ok(t),
            Err(_) => Err(AuthError::Upstream),
        }
    }

    /// Whether the token decodes under the secret: structure and
    /// signature only, never the clock.
    pub fn is_valid(secret: &str, token: &str) -> (r: bool)
        ensures
            r == (jwt_claims_of(secret@, token@) is Some),
    {
        jwt_decode(secret, token).is_some()
    }

    /// Decodes the token, or reports invalid credentials.
    pub fn decode_token(secret: &str, token: &str) -> (r: Result<Claims, AuthError>)
        ensures
            r matches Ok(c) ==> jwt_claims_of(secret@, token@) == Some(c),
            r is Err <==> jwt_claims_of(secret@, token@) is None,
            r is Err ==> r == Err::<Claims, AuthError>(AuthError::WrongCredentials),
    {
        match jwt_decode(secret, token) {
            Some(c) => Ok(c),
            None => Err(AuthError::WrongCredentials),
        }
    }

    /// Checks the token is live at `now` and returns its subject;
    /// a dead or undecodable token reports invalid credentials.
    pub fn is_active(secret: &str, token: &str, now: u64) -> (r: Result<i64, AuthError>)
        ensures
            r is Ok <==> token_live(secret@, token@, now),
            r matches Ok(sub) ==> jwt_claims_of(secret@, token@) matches Some(c) && c.sub == sub,
            r is Err ==> r == Err::<i64, AuthError>(AuthError::WrongCredentials),
    {
        match jwt_decode(secret, token) {
            Some(c) => {
                if now < c.exp {
                    Ok(c.sub)
                } else {
                    Err(AuthError::WrongCredentials)
                }
            },
            None => Err(AuthError::WrongCredentials),
        }
    }
}

/// Law: a just-issued access token is live, and stays live exactly until
/// its window elapses: for a token carrying expiry `issued_at + 3600`,
/// liveness holds at `issued_at` and at every instant strictly before
/// the expiry, and fails at the expiry and ever after.
pub proof fn lemma_access_token_liveness(
    secret: Seq<char>,
    token: Seq<char>,
    sub: i64,
    issued_at: u64,
    t: u64,
)
    requires
        time_fits(issued_at),
        jwt_claims_of(secret, token) == Some(
            Claims { sub, exp: (issued_at + ACCESS_TOKEN_SECONDS) as u64, refresh: false },
        ),
    ensures
        token_live(secret, token, issued_at),
        t < issued_at + ACCESS_TOKEN_SECONDS ==> token_live(secret, token, t),
        t >= issued_at + ACCESS_TOKEN_SECONDS ==> !token_live(secret, token, t),
{
}

} // verus!
