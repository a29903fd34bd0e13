//! Login, token-owner resolution and access-token refresh.

use vstd::prelude::*;

use crate::errors::AuthError;
use crate::hasher::{salted_hash, HasherService};
use crate::jwt::{jwt_claims_of, jwt_of, time_fits, token_live, Claims, JWTService,
    ACCESS_TOKEN_SECONDS};
use crate::models::{BaseUserInfo, Session, User, UserLogin};
use crate::redis::{RecordValue, RedisService};
use crate::repository::{
    has_user_named, jwt_match_at, jwt_updated, refresh_match_at, AuthDb, AuthRepository,
    SessionRepository,
};
use crate::session::{obtained_session, SessionService};
use crate::text::concat_str;
use crate::tfa::{TFAService, TFA_KEY_PREFIX, TFA_TTL_MINUTES};

verus! {

/// What a login resolves to once the password has matched: either a
/// session, or an instruction to confirm a second factor first.
pub enum LoginOutcome {
    /// A pending challenge was staged; the caller must submit a code.
    TwoFactorRequired,
    /// No second factor is enrolled; the session is established.
    Established(Session),
}

pub struct AuthService;

impl AuthService {
    /// Resolves the owner of an access token: the session must exist,
    /// be active, and the token live at `now`.
    pub fn get_owner(db: &AuthDb, token: String, now: u64, secret: &str) -> (r: Result<
        BaseUserInfo,
        AuthError,
    >)
        requires
            db.wf(),
        ensures
            r is Ok <==> exists|i: int, j: int|
                {
                    &&& #[trigger] jwt_match_at(db.sessions@, token@, i)
                    &&& db.sessions@[i].is_active
                    &&& token_live(secret@, token@, now)
                    &&& 0 <= j < db.users@.len()
                    &&& (#[trigger] db.users@[j]).id == db.sessions@[i].user_id
                },
            r matches Ok(b) ==> exists|i: int, j: int|
                {
                    &&& #[trigger] jwt_match_at(db.sessions@, token@, i)
                    &&& db.sessions@[i].is_active
                    &&& token_live(secret@, token@, now)
                    &&& 0 <= j < db.users@.len()
                    &&& (#[trigger] db.users@[j]).id == db.sessions@[i].user_id
                    &&& b.id == db.users@[j].id
                    &&& b.username@ == db.users@[j].username@
                },
            r is Err ==> r == Err::<BaseUserInfo, AuthError>(AuthError::NotFound),
    {
        let session = match SessionService::get_by_jwt(db, token, true, now, secret) {
            Ok(s) => s,
            Err(_) => {
                return Err(AuthError::NotFound);
            },
        };
        match AuthRepository::find(db, session.user_id) {
            Ok(user) => Ok(BaseUserInfo { id: user.id, username: user.username }),
            Err(_) => Err(AuthError::NotFound),
        }
    }

    /// Logs a user in: resolves the username, checks the salted
    /// password hash, and either stages a second-factor challenge (when
    /// one is enrolled) or obtains the session for this device.
    pub fn login(
        db: &mut AuthDb,
        redis: &mut RedisService,
        credentials: &UserLogin,
        user_agent: &str,
        now: u64,
        secret: &str,
    ) -> (r: Result<LoginOutcome, AuthError>)
        requires
            old(db).wf(),
            old(redis).wf(),
            time_fits(now),
            old(db).next_session_id < i32::MAX,
        ensures
            final(db).wf(),
            final(redis).wf(),
            final(db).users@ == old(db).users@,
            final(db).next_user_id == old(db).next_user_id,
            // Unknown username: nothing changes, nothing is revealed
            // beyond absence.
            !has_user_named(old(db).users@, credentials.username@) ==> r == Err::<
                LoginOutcome,
                AuthError,
            >(AuthError::NotFound) && *final(db) == *old(db) && *final(redis) == *old(redis),
            // Wrong password: rejected without revealing which check
            // failed, and nothing changes.
            (exists|i: int|
                {
                    &&& 0 <= i < old(db).users@.len()
                    &&& (#[trigger] old(db).users@[i]).username@ == credentials.username@
                    &&& old(db).users@[i].password@ != salted_hash(
                        credentials.password@,
                        old(db).users@[i].salt@,
                    )
                }) ==> r == Err::<LoginOutcome, AuthError>(AuthError::WrongCredentials)
                && *final(db) == *old(db) && *final(redis) == *old(redis),
            // Password ok, second factor enrolled: a pending challenge
            // is staged under the username with a short time to live,
            // and no session is touched.
            r matches Ok(LoginOutcome::TwoFactorRequired) ==> exists|i: int|
                {
                    &&& 0 <= i < old(db).users@.len()
                    &&& (#[trigger] old(db).users@[i]).username@ == credentials.username@
                    &&& old(db).users@[i].password@ == salted_hash(
                        credentials.password@,
                        old(db).users@[i].salt@,
                    )
                    &&& old(db).users@[i].totp_secret is Some
                } && final(redis).contents() == old(redis).contents().insert(
                TFA_KEY_PREFIX@ + credentials.username@,
                (RecordValue::Marker, (now + TFA_TTL_MINUTES * 60) as u64),
            ) && *final(db) == *old(db),
            // Password ok, no second factor: the session for this
            // device is obtained and the record store untouched.
            r matches Ok(LoginOutcome::Established(s)) ==> exists|i: int|
                {
                    &&& 0 <= i < old(db).users@.len()
                    &&& (#[trigger] old(db).users@[i]).username@ == credentials.username@
                    &&& old(db).users@[i].password@ == salted_hash(
                        credentials.password@,
                        old(db).users@[i].salt@,
                    )
                    &&& old(db).users@[i].totp_secret is None
                    &&& obtained_session(
                        old(db).sessions@,
                        old(db).next_session_id,
                        final(db).sessions@,
                        final(db).next_session_id,
                        s,
                        old(db).users@[i].id,
                        user_agent@,
                        now,
                        secret@,
                    )
                } && *final(redis) == *old(redis),
            r is Err ==> *final(db) == *old(db) && *final(redis) == *old(redis),
            // The two rejections arise only for their own reasons.
            r == Err::<LoginOutcome, AuthError>(AuthError::NotFound) ==> !has_user_named(
                old(db).users@,
                credentials.username@,
            ),
            r == Err::<LoginOutcome, AuthError>(AuthError::WrongCredentials) ==> exists|i: int|
                {
                    &&& 0 <= i < old(db).users@.len()
                    &&& (#[trigger] old(db).users@[i]).username@ == credentials.username@
                    &&& old(db).users@[i].password@ != salted_hash(
                        credentials.password@,
                        old(db).users@[i].salt@,
                    )
                },
            // A correct password is owed its outcome: the challenge
            // prompt when a second factor is enrolled, the session when
            // none is.
            (exists|i: int|
                {
                    &&& 0 <= i < old(db).users@.len()
                    &&& (#[trigger] old(db).users@[i]).username@ == credentials.username@
                    &&& old(db).users@[i].password@ == salted_hash(
                        credentials.password@,
                        old(db).users@[i].salt@,
                    )
                    &&& old(db).users@[i].totp_secret is Some
                }) ==> r == Ok::<LoginOutcome, AuthError>(LoginOutcome::TwoFactorRequired),
            (exists|i: int|
                {
                    &&& 0 <= i < old(db).users@.len()
                    &&& (#[trigger] old(db).users@[i]).username@ == credentials.username@
                    &&& old(db).users@[i].password@ == salted_hash(
                        credentials.password@,
                        old(db).users@[i].salt@,
                    )
                    &&& old(db).users@[i].totp_secret is None
                }) ==> r matches Ok(LoginOutcome::Established(_)),
    {
        let user = match AuthRepository::find_by_username(db, &credentials.username) {
            Ok(u) => u,
            Err(_) => {
                return Err(AuthError::NotFound);
            },
        };
        let ghost iu = choose|i: int| 0 <= i < db.users@.len() && db.users@[i] == user;
        proof {
            assert forall|i: int|
                0 <= i < db.users@.len() && (#[trigger] db.users@[i]).username@
                    == credentials.username@ implies db.users@[i] == user by {
                assert(db.users@[iu].username@ == credentials.username@);
                if i < iu {
                }
                if iu < i {
                }
            }
        }
        let supplied = HasherService::sha256(
            concat_str(credentials.password.as_str(), user.salt.as_str()),
        );
        if !user.password.eq(&supplied) {
            return Err(AuthError::WrongCredentials);
        }
        if user.totp_secret.is_some() {
            TFAService::add_login_attempt(redis, user.username, now)?;
            Ok(LoginOutcome::TwoFactorRequired)
        } else {
            let session = SessionService::get(db, &user, user_agent, now, secret)?;
            Ok(LoginOutcome::Established(session))
        }
    }

    /// Renews the access token of the active session holding this live
    /// refresh token; the refresh token itself is never rotated.
    pub fn refresh(db: &mut AuthDb, refresh_token: String, now: u64, secret: &str) -> (r: Result<
        Session,
        AuthError,
    >)
        requires
            old(db).wf(),
            time_fits(now),
        ensures
            final(db).wf(),
            final(db).users@ == old(db).users@,
            final(db).next_user_id == old(db).next_user_id,
            final(db).next_session_id == old(db).next_session_id,
            r is Err ==> *final(db) == *old(db),
            r == Err::<Session, AuthError>(AuthError::NotFound) <==> !(exists|i: int|
                #[trigger] refresh_match_at(old(db).sessions@, refresh_token@, i) && old(
                    db,
                ).sessions@[i].is_active && token_live(secret@, refresh_token@, now)),
            // A live, active refresh token is owed its renewal.
            (exists|i: int|
                #[trigger] refresh_match_at(old(db).sessions@, refresh_token@, i) && old(
                    db,
                ).sessions@[i].is_active && token_live(secret@, refresh_token@, now)) ==> r
                is Ok,
            r matches Ok(s) ==> exists|i: int|
                {
                    &&& #[trigger] refresh_match_at(old(db).sessions@, refresh_token@, i)
                    &&& old(db).sessions@[i].is_active
                    &&& token_live(secret@, refresh_token@, now)
                    &&& jwt_updated(old(db).sessions@[i], final(db).sessions@[i], s.jwt)
                    &&& final(db).sessions@ =~= old(db).sessions@.update(
                        i,
                        final(db).sessions@[i],
                    )
                    &&& s == final(db).sessions@[i]
                    &&& s.jwt@ == jwt_of(
                        secret@,
                        old(db).sessions@[i].user_id as i64,
                        (now + ACCESS_TOKEN_SECONDS) as u64,
                        false,
                    )
                    &&& jwt_claims_of(secret@, s.jwt@) == Some(
                        Claims {
                            sub: old(db).sessions@[i].user_id as i64,
                            exp: (now + ACCESS_TOKEN_SECONDS) as u64,
                            refresh: false,
                        },
                    )
                },
    {
        let session = SessionService::get_by_refresh(db, refresh_token, true, now, secret)?;
        let ghost i = choose|i: int|
            0 <= i < db.sessions@.len() && db.sessions@[i] == session;
        let token = JWTService::generate(secret, session.user_id, now)?;
        let updated = SessionRepository::update(db, session.id, token)?;
        proof {
            let j = choose|j: int|
                {
                    &&& 0 <= j < old(db).sessions@.len()
                    &&& #[trigger] old(db).sessions@[j].id == session.id
                    &&& jwt_updated(old(db).sessions@[j], db.sessions@[j], updated.jwt)
                    &&& db.sessions@ =~= old(db).sessions@.update(j, db.sessions@[j])
                    &&& updated == db.sessions@[j]
                };
            assert(j == i);
        }
        Ok(updated)
    }
}

} // verus!
