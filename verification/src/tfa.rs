//! The two-factor challenge engine.
//!
//! A successful password check for an enrolled user stages a pending
//! challenge under the username with a short time to live. A confirm
//! request re-derives the expected time-based code from the stored
//! secret: an absent (or lapsed) challenge is reported as "no such
//! pending request", distinctly from a wrong code; a wrong code leaves
//! the challenge in place for a retry; a right code consumes the
//! challenge exactly once and proceeds to session issuance.

use vstd::prelude::*;

use crate::errors::AuthError;
use crate::hasher::{is_base32_char, HasherService};
use crate::jwt::{jwt_claims_of, time_fits, token_live, JWTService};
use crate::models::{Session, TFAAddBody, User};
use crate::redis::{RecordValue, RedisService};
use crate::repository::{totp_updated, AuthDb, AuthRepository};
use crate::session::{obtained_session, SessionService};
use crate::text::concat_str;

verus! {

/// The namespace prefix of pending-challenge keys.
pub const TFA_KEY_PREFIX: &'static str = "2fa:";

/// Minutes a pending challenge stays confirmable.
pub const TFA_TTL_MINUTES: u64 = 5;

/// The six-digit code the fixed TOTP parameters (SHA-1, 6 digits, skew
/// 1, 30-second step) derive from a secret at a timestamp: named after
/// totp_rs's `TOTP::generate`, a function of its arguments alone.
pub uninterp spec fn totp_of(secret: Seq<char>, time: u64) -> Seq<char>;

/// Whether a submitted code is accepted for a secret at a timestamp
/// under the same fixed parameters (the skew admits one step either
/// side): named after totp_rs's `TOTP::check`, a function of its
/// arguments alone.
pub uninterp spec fn totp_matches(secret: Seq<char>, code: Seq<char>, time: u64) -> bool;

/// A timestamp the code check accepts without arithmetic faults: its
/// skew walk subtracts one 30-second step and looks one step ahead, so
/// the first step of 1970 and the last minute before the counter's end
/// are out.
pub open spec fn totp_time_ok(time: u64) -> bool {
    30 <= time && time + 60 <= u64::MAX
}

/// The otpauth enrollment URL for a secret and account name under the
/// same fixed parameters and this service's issuer: named after
/// totp_rs's `TOTP::get_url`, a function of its arguments alone.
pub uninterp spec fn totp_url_of(secret: Seq<char>, username: Seq<char>) -> Seq<char>;

/// Relies on totp_rs: `TOTP::new` with the fixed parameters accepts any
/// secret of at least 16 bytes, and `TOTP::generate` derives the code
/// from the secret bytes and the timestamp alone.
#[verifier::external_body]
fn totp_generate_at(secret: &str, time: u64) -> (r: Result<String, ()>)
    ensures
        secret@.len() >= 16 ==> r is Ok,
        r matches Ok(c) ==> c@ == totp_of(secret@, time),
{
    let key = secret.as_bytes().to_vec();
    let totp = match totp_rs::TOTP::new(totp_rs::Algorithm::SHA1, 6, 1, 30, key, None, String::new()) {
        Ok(t) => t,
        Err(_) => return Err(()),
    };
    Ok(totp.generate(time))
}

/// Relies on totp_rs: `TOTP::check` accepts a code exactly when it
/// equals the one generated for a step within the skew window around
/// the timestamp; in particular it accepts the code generated for the
/// timestamp itself. The time bound keeps its skew walk — one step
/// back, one ahead — inside the counter's range.
#[verifier::external_body]
fn totp_check_at(secret: &str, code: &str, time: u64) -> (r: Result<bool, ()>)
    requires
        totp_time_ok(time),
    ensures
        secret@.len() >= 16 ==> r is Ok,
        r matches Ok(b) ==> b == totp_matches(secret@, code@, time),
        r matches Ok(b) ==> (code@ == totp_of(secret@, time) ==> b),
{
    let key = secret.as_bytes().to_vec();
    let totp = match totp_rs::TOTP::new(totp_rs::Algorithm::SHA1, 6, 1, 30, key, None, String::new()) {
        Ok(t) => t,
        Err(_) => return Err(()),
    };
    Ok(totp.check(code, time))
}

/// Relies on totp_rs: `TOTP::new` with this service's issuer, then
/// `TOTP::get_url`; the URL depends on the secret and account name
/// alone, and construction succeeds for a secret of at least 16 bytes
/// and an account name without a colon.
#[verifier::external_body]
fn totp_url(secret: &str, username: &str) -> (r: Result<String, ()>)
    ensures
        secret@.len() >= 16 && !username@.contains(':') ==> r is Ok,
        r matches Ok(u) ==> u@ == totp_url_of(secret@, username@),
{
    let key = secret.as_bytes().to_vec();
    let issuer = Some("serenitymc.ru".to_string());
    let totp = match totp_rs::TOTP::new(totp_rs::Algorithm::SHA1, 6, 1, 30, key, issuer, username.to_string()) {
        Ok(t) => t,
        Err(_) => return Err(()),
    };
    Ok(totp.get_url())
}

/// A stored reference to the user awaiting a second-factor
/// confirmation. The engine keys its pending challenges by username and
/// records a bare marker, so this richer payload stays available to
/// callers that prefer a nonce-keyed challenge.
#[derive(Debug)]
pub struct TwoFactorRedisData {
    pub id: i32,
    pub code: String,
}

/// A freshly derived enrollment: the secret and the payload the
/// authenticator is seeded with.
pub struct TwoFactorResponse {
    pub secret: String,
    pub qr: String,
}

pub struct TFAService;

impl TFAService {
    /// The store key of the pending challenge for this username.
    pub fn generate_redis_2fa_key(key: String) -> (r: String)
        ensures
            r@ == TFA_KEY_PREFIX@ + key@,
    {
        concat_str(TFA_KEY_PREFIX, key.as_str())
    }

    /// Derives the code a genuine authenticator shows for `secret` at
    /// `time`; used by enrollment flows that must present one.
    pub fn code_at(secret: &str, time: u64) -> (r: Result<String, AuthError>)
        ensures
            secret@.len() >= 16 ==> r is Ok,
            r matches Ok(c) ==> c@ == totp_of(secret@, time),
            r is Err ==> r == Err::<String, AuthError>(AuthError::Upstream),
    {
        match totp_generate_at(secret, time) {
            Ok(c) => Ok(c),
            Err(_) => Err(AuthError::Upstream),
        }
    }

    /// Stages a pending challenge for this username, confirmable for
    /// the next few minutes.
    pub fn add_login_attempt(redis: &mut RedisService, username: String, now: u64) -> (r: Result<
        (),
        AuthError,
    >)
        requires
            old(redis).wf(),
            now + TFA_TTL_MINUTES * 60 <= u64::MAX,
        ensures
            final(redis).wf(),
            r is Ok,
            final(redis).contents() == old(redis).contents().insert(
                TFA_KEY_PREFIX@ + username@,
                (RecordValue::Marker, (now + TFA_TTL_MINUTES * 60) as u64),
            ),
    {
        let key = Self::generate_redis_2fa_key(username);
        redis.set_temporarily(key, RecordValue::Marker, TFA_TTL_MINUTES, now);
        Ok(())
    }

    /// Resolves a pending challenge: the challenge must be present and
    /// unexpired, and the user still on record.
    pub fn get_login_attempt(redis: &RedisService, db: &AuthDb, username: &String, now: u64) -> (r:
        Result<User, AuthError>)
        requires
            redis.wf(),
            db.wf(),
        ensures
            r is Ok <==> redis.live_value(TFA_KEY_PREFIX@ + username@, now) is Some && exists|
                i: int,
            |
                0 <= i < db.users@.len() && #[trigger] db.users@[i].username@ == username@,
            r matches Ok(u) ==> u.username@ == username@ && exists|i: int|
                0 <= i < db.users@.len() && #[trigger] db.users@[i] == u,
            r is Err ==> r == Err::<User, AuthError>(AuthError::NotFound),
    {
        let key = Self::generate_redis_2fa_key(username.clone());
        if redis.get(&key, now).is_none() {
            return Err(AuthError::NotFound);
        }
        AuthRepository::find_by_username(db, username)
    }

    /// Drops the pending challenge for this username.
    pub fn remove_login_attempt(redis: &mut RedisService, username: &String) -> (r: Result<
        (),
        AuthError,
    >)
        requires
            old(redis).wf(),
        ensures
            final(redis).wf(),
            r is Ok,
            final(redis).contents() == old(redis).contents().remove(TFA_KEY_PREFIX@ + username@),
    {
        let key = Self::generate_redis_2fa_key(username.clone());
        redis.remove(&key);
        Ok(())
    }

    /// Derives an enrollment for this account: with `secret` absent a
    /// fresh one is generated; the response carries the secret and its
    /// enrollment URL.
    pub fn generate_2fa(username: String, secret: Option<String>) -> (r: Result<
        TwoFactorResponse,
        AuthError,
    >)
        ensures
            r matches Ok(t) ==> {
                &&& secret matches Some(s) ==> t.secret == s
                &&& secret is None ==> t.secret@.len() == 32 && forall|i: int|
                    0 <= i < t.secret@.len() ==> is_base32_char(#[trigger] t.secret@[i])
                &&& t.qr@ == totp_url_of(t.secret@, username@)
            },
            r is Err ==> r == Err::<TwoFactorResponse, AuthError>(AuthError::Upstream),
            ((secret matches Some(s) && s@.len() >= 16) || secret is None) && !username@.contains(
                ':',
            ) ==> r is Ok,
    {
        let sec = match secret {
            Some(s) => s,
            None => HasherService::generate_2fa_secret(),
        };
        match totp_url(sec.as_str(), username.as_str()) {
            Ok(url) => Ok(TwoFactorResponse { secret: sec, qr: url }),
            Err(_) => Err(AuthError::Upstream),
        }
    }

    /// Begins enrollment for the owner of a live access token: fails
    /// closed when a second factor is already linked, else derives a
    /// fresh secret and its enrollment payload. Nothing is persisted
    /// until the code is confirmed through [`TFAService::link`].
    pub fn add(db: &AuthDb, token: String, now: u64, jwt_secret: &str) -> (r: Result<
        TFAAddBody,
        AuthError,
    >)
        requires
            db.wf(),
        ensures
            !token_live(jwt_secret@, token@, now) ==> r == Err::<TFAAddBody, AuthError>(
                AuthError::WrongCredentials,
            ),
            r matches Ok(b) ==> token_live(jwt_secret@, token@, now) && (jwt_claims_of(
                jwt_secret@,
                token@,
            ) matches Some(c) && exists|j: int|
                {
                    &&& 0 <= j < db.users@.len()
                    &&& (#[trigger] db.users@[j]).id as i64 == c.sub
                    &&& db.users@[j].totp_secret is None
                    &&& b.secret@.len() == 32
                    &&& b.qr@ == totp_url_of(b.secret@, db.users@[j].username@)
                }),
            token_live(jwt_secret@, token@, now) && (jwt_claims_of(jwt_secret@, token@)
                matches Some(c) && exists|j: int|
                0 <= j < db.users@.len() && (#[trigger] db.users@[j]).id as i64 == c.sub
                    && db.users@[j].totp_secret is Some) ==> r == Err::<TFAAddBody, AuthError>(
                AuthError::Conflict,
            ),
            // Enrollment is owed whenever nothing stands in its way.
            token_live(jwt_secret@, token@, now) && (jwt_claims_of(jwt_secret@, token@)
                matches Some(c) && exists|j: int|
                {
                    &&& 0 <= j < db.users@.len()
                    &&& (#[trigger] db.users@[j]).id as i64 == c.sub
                    &&& db.users@[j].totp_secret is None
                    &&& !db.users@[j].username@.contains(':')
                }) ==> r is Ok,
    {
        let sub = match JWTService::is_active(jwt_secret, token.as_str(), now) {
            Ok(s) => s,
            Err(e) => {
                return Err(e);
            },
        };
        if sub < i32::MIN as i64 || sub > i32::MAX as i64 {
            proof {
                assert(forall|j: int|
                    0 <= j < db.users@.len() ==> (#[trigger] db.users@[j]).id as i64 != sub);
            }
            return Err(AuthError::NotFound);
        }
        let user = match AuthRepository::find(db, sub as i32) {
            Ok(u) => u,
            Err(e) => {
                proof {
                    assert forall|j: int|
                        0 <= j < db.users@.len() implies (#[trigger] db.users@[j]).id as i64
                        != sub by {
                        if db.users@[j].id as i64 == sub {
                            assert(db.users@[j].id == sub as i32);
                        }
                    }
                }
                return Err(e);
            },
        };
        let ghost ju = choose|i: int| 0 <= i < db.users@.len() && db.users@[i] == user;
        proof {
            assert forall|j: int|
                0 <= j < db.users@.len() && (#[trigger] db.users@[j]).id as i64
                    == sub implies db.users@[j] == user by {
                assert(db.users@[j].id == sub as i32);
                assert(db.users@[ju].id == sub as i32);
                if j < ju {
                }
                if ju < j {
                }
            }
        }
        if user.totp_secret.is_some() {
            return Err(AuthError::Conflict);
        }
        let enrollment = match Self::generate_2fa(user.username.clone(), None) {
            Ok(e) => e,
            Err(e) => {
                return Err(e);
            },
        };
        Ok(TFAAddBody { secret: enrollment.secret, qr: enrollment.qr })
    }

    /// Links a second factor to the token owner's account once the
    /// submitted code proves the authenticator holds the secret; a
    /// wrong code changes nothing, and an already-enrolled account
    /// fails closed with a conflict rather than being overwritten.
    pub fn link(
        db: &mut AuthDb,
        token: String,
        code: String,
        secret: String,
        now: u64,
        jwt_secret: &str,
    ) -> (r: Result<(), AuthError>)
        requires
            old(db).wf(),
            totp_time_ok(now),
        ensures
            final(db).wf(),
            final(db).sessions@ == old(db).sessions@,
            final(db).next_session_id == old(db).next_session_id,
            final(db).next_user_id == old(db).next_user_id,
            r is Err ==> *final(db) == *old(db),
            !token_live(jwt_secret@, token@, now) ==> r == Err::<(), AuthError>(
                AuthError::WrongCredentials,
            ),
            r == Err::<(), AuthError>(AuthError::WrongCredentials) ==> !token_live(
                jwt_secret@,
                token@,
                now,
            ) || !totp_matches(secret@, code@, now),
            r is Ok ==> totp_matches(secret@, code@, now) && (jwt_claims_of(jwt_secret@, token@)
                matches Some(c) && exists|i: int|
                {
                    &&& 0 <= i < old(db).users@.len()
                    &&& (#[trigger] old(db).users@[i]).id as i64 == c.sub
                    &&& old(db).users@[i].totp_secret is None
                    &&& totp_updated(old(db).users@[i], final(db).users@[i], secret)
                    &&& final(db).users@ =~= old(db).users@.update(i, final(db).users@[i])
                }),
            // Fails closed: a second factor already on the account is
            // never silently overwritten.
            token_live(jwt_secret@, token@, now) && (jwt_claims_of(jwt_secret@, token@)
                matches Some(c) && exists|j: int|
                0 <= j < old(db).users@.len() && (#[trigger] old(db).users@[j]).id as i64
                    == c.sub && old(db).users@[j].totp_secret is Some) ==> r == Err::<
                (),
                AuthError,
            >(AuthError::Conflict),
            // Linking is owed whenever nothing stands in its way.
            token_live(jwt_secret@, token@, now) && (jwt_claims_of(jwt_secret@, token@)
                matches Some(c) && exists|j: int|
                0 <= j < old(db).users@.len() && (#[trigger] old(db).users@[j]).id as i64
                    == c.sub && old(db).users@[j].totp_secret is None) && secret@.len() >= 16
                && totp_matches(secret@, code@, now) ==> r is Ok,
    {
        let sub = match JWTService::is_active(jwt_secret, token.as_str(), now) {
            Ok(s) => s,
            Err(e) => {
                return Err(e);
            },
        };
        if sub < i32::MIN as i64 || sub > i32::MAX as i64 {
            proof {
                assert(forall|j: int|
                    0 <= j < db.users@.len() ==> (#[trigger] db.users@[j]).id as i64 != sub);
            }
            return Err(AuthError::NotFound);
        }
        let user = match AuthRepository::find(db, sub as i32) {
            Ok(u) => u,
            Err(e) => {
                proof {
                    assert forall|j: int|
                        0 <= j < db.users@.len() implies (#[trigger] db.users@[j]).id as i64
                        != sub by {
                        if db.users@[j].id as i64 == sub {
                            assert(db.users@[j].id == sub as i32);
                        }
                    }
                }
                return Err(e);
            },
        };
        let ghost ju = choose|i: int| 0 <= i < db.users@.len() && db.users@[i] == user;
        proof {
            assert forall|j: int|
                0 <= j < db.users@.len() && (#[trigger] db.users@[j]).id as i64
                    == sub implies db.users@[j] == user by {
                assert(db.users@[j].id == sub as i32);
                assert(db.users@[ju].id == sub as i32);
                if j < ju {
                }
                if ju < j {
                }
            }
        }
        if user.totp_secret.is_some() {
            return Err(AuthError::Conflict);
        }
        match totp_check_at(secret.as_str(), code.as_str(), now) {
            Ok(true) => {},
            Ok(false) => {
                return Err(AuthError::WrongCredentials);
            },
            Err(_) => {
                return Err(AuthError::Upstream);
            },
        }
        let count = AuthRepository::update_totp(db, user.id, secret);
        proof {
            assert(count == 1);
        }
        Ok(())
    }

    /// Confirms a pending second-factor login: an absent or lapsed
    /// challenge reads "no such pending request"; a wrong code leaves
    /// the challenge for a retry; a right code consumes it and obtains
    /// the session for this device.
    pub fn login(
        db: &mut AuthDb,
        redis: &mut RedisService,
        username: String,
        code: String,
        user_agent: String,
        now: u64,
        jwt_secret: &str,
    ) -> (r: Result<Session, AuthError>)
        requires
            old(db).wf(),
            old(redis).wf(),
            time_fits(now),
            30 <= now,
            old(db).next_session_id < i32::MAX,
        ensures
            final(db).wf(),
            final(redis).wf(),
            final(db).users@ == old(db).users@,
            final(db).next_user_id == old(db).next_user_id,
            // No live challenge: reported as absent, nothing changes.
            old(redis).live_value(TFA_KEY_PREFIX@ + username@, now) is None ==> r == Err::<
                Session,
                AuthError,
            >(AuthError::NotFound) && *final(db) == *old(db) && *final(redis) == *old(redis),
            // No rejection consumes the challenge or touches a row.
            r is Err ==> *final(db) == *old(db) && *final(redis) == *old(redis),
            // The two rejections arise only for their own reasons: an
            // absent challenge or a code the secret does not accept.
            r == Err::<Session, AuthError>(AuthError::NotFound) ==> !(old(redis).live_value(
                TFA_KEY_PREFIX@ + username@,
                now,
            ) is Some && exists|i: int|
                0 <= i < old(db).users@.len() && #[trigger] old(db).users@[i].username@
                    == username@),
            r == Err::<Session, AuthError>(AuthError::WrongCredentials) ==> exists|i: int|
                {
                    &&& 0 <= i < old(db).users@.len()
                    &&& (#[trigger] old(db).users@[i]).username@ == username@
                    &&& (old(db).users@[i].totp_secret is None || (old(
                        db,
                    ).users@[i].totp_secret matches Some(sec) && !totp_matches(
                        sec@,
                        code@,
                        now,
                    )))
                },
            // A live challenge with a code the stored secret does not
            // accept is pinned to the wrong-code outcome.
            old(redis).live_value(TFA_KEY_PREFIX@ + username@, now) is Some && (exists|i: int|
                {
                    &&& 0 <= i < old(db).users@.len()
                    &&& (#[trigger] old(db).users@[i]).username@ == username@
                    &&& (old(db).users@[i].totp_secret is None || (old(
                        db,
                    ).users@[i].totp_secret matches Some(sec) && sec@.len() >= 16
                        && !totp_matches(sec@, code@, now)))
                }) ==> r == Err::<Session, AuthError>(AuthError::WrongCredentials),
            // A right code is owed its session.
            old(redis).live_value(TFA_KEY_PREFIX@ + username@, now) is Some && (exists|i: int|
                {
                    &&& 0 <= i < old(db).users@.len()
                    &&& (#[trigger] old(db).users@[i]).username@ == username@
                    &&& old(db).users@[i].totp_secret matches Some(sec) && sec@.len() >= 16
                        && totp_matches(sec@, code@, now)
                }) ==> r is Ok,
            // A right code consumes the challenge exactly once and
            // yields the session for this device.
            r matches Ok(s) ==> old(redis).live_value(TFA_KEY_PREFIX@ + username@, now) is Some
                && final(redis).contents() == old(redis).contents().remove(
                TFA_KEY_PREFIX@ + username@,
            ) && exists|i: int|
                {
                    &&& 0 <= i < old(db).users@.len()
                    &&& (#[trigger] old(db).users@[i]).username@ == username@
                    &&& old(db).users@[i].totp_secret matches Some(sec) && totp_matches(
                        sec@,
                        code@,
                        now,
                    )
                    &&& obtained_session(
                        old(db).sessions@,
                        old(db).next_session_id,
                        final(db).sessions@,
                        final(db).next_session_id,
                        s,
                        old(db).users@[i].id,
                        user_agent@,
                        now,
                        jwt_secret@,
                    )
                },
    {
        let user = match Self::get_login_attempt(redis, db, &username, now) {
            Ok(u) => u,
            Err(_) => {
                return Err(AuthError::NotFound);
            },
        };
        let ghost iu = choose|i: int| 0 <= i < db.users@.len() && db.users@[i] == user;
        proof {
            assert forall|i: int|
                0 <= i < db.users@.len() && (#[trigger] db.users@[i]).username@
                    == username@ implies db.users@[i] == user by {
                assert(db.users@[iu].username@ == username@);
                if i < iu {
                }
                if iu < i {
                }
            }
        }
        let sec = match &user.totp_secret {
            Some(s) => s.clone(),
            None => {
                return Err(AuthError::WrongCredentials);
            },
        };
        match totp_check_at(sec.as_str(), code.as_str(), now) {
            Ok(true) => {},
            Ok(false) => {
                return Err(AuthError::WrongCredentials);
            },
            Err(_) => {
                return Err(AuthError::Upstream);
            },
        }
        Self::remove_login_attempt(redis, &username)?;
        SessionService::get(db, &user, user_agent.as_str(), now, jwt_secret)
    }
}

/// Law: a pending challenge, once successfully confirmed, cannot be
/// confirmed a second time: after the consuming removal the key reads
/// as absent at every time, so a later confirm reports "not found",
/// never "wrong code".
pub proof fn lemma_challenge_confirmed_once(
    pre: RedisService,
    post: RedisService,
    key: Seq<char>,
    t: u64,
)
    requires
        post.contents() == pre.contents().remove(key),
    ensures
        post.live_value(key, t) is None,
{
}

/// Law: a pending challenge not confirmed within its window behaves,
/// for confirm attempts, exactly as one never created: at and after its
/// expiry the store answers for that key just as a store without the
/// record does.
pub proof fn lemma_challenge_ttl_lapse(
    s: RedisService,
    other: RedisService,
    key: Seq<char>,
    t: u64,
)
    requires
        s.contents().contains_key(key),
        s.contents()[key].1 <= t,
        other.contents() == s.contents().remove(key),
    ensures
        s.live_value(key, t) is None,
        s.live_value(key, t) == other.live_value(key, t),
{
}

} // verus!
