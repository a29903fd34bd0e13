//! The password-recovery workflow.
//!
//! Initiation writes two linked ephemeral records under one short
//! lifetime — the code resolving to the email, and the email resolving
//! back to the code — so that a second request for an email with one
//! already pending can be rejected. Confirmation demands a valid new
//! password, resolves the email from the code, installs a fresh salt
//! and salted hash on the durable row, and deletes both records
//! together. Initiation is split like registration: the ticket is
//! prepared first and committed only after the notification went out.

use vstd::prelude::*;

use crate::errors::{AuthError, Field};
use crate::hasher::{salted_hash, HasherService, MAX_CODE, MIN_CODE, SALT_LEN};
use crate::mail::RecoveryMail;
use crate::models::{UserInUserService, UserPasswordUpdate};
use crate::redis::{RecordValue, RedisService};
use crate::repository::{AuthDb, AuthRepository};
use crate::text::{concat_str, dec_str_of};
use crate::validate::{password_ok, AuthValidateService};

verus! {

/// The namespace prefix of recovery keys.
pub const RECOVERY_KEY_PREFIX: &'static str = "recovery:";

/// Minutes a recovery request stays confirmable.
pub const RECOVERY_TTL_MINUTES: u64 = 5;

/// Everything an initiated recovery produces: the single-use code, the
/// email it belongs to, and the notification to deliver before the
/// records are committed.
pub struct RecoveryTicket {
    pub code: String,
    pub email: String,
    pub mail: RecoveryMail,
}

pub struct RecoveryService;

impl RecoveryService {
    /// The store key for a code or an email.
    pub fn get_record_key(code: &String) -> (r: String)
        ensures
            r@ == RECOVERY_KEY_PREFIX@ + code@,
    {
        concat_str(RECOVERY_KEY_PREFIX, code.as_str())
    }

    /// Initiates a recovery: rejected while one is already pending for
    /// the email, or when the directory knows no such address; else a
    /// fresh code and its notification are prepared. Nothing is
    /// persisted yet.
    pub fn recovery(
        redis: &RedisService,
        email: String,
        directory_user: Option<UserInUserService>,
        now: u64,
    ) -> (r: Result<RecoveryTicket, AuthError>)
        requires
            redis.wf(),
        ensures
            r is Ok <==> redis.live_value(RECOVERY_KEY_PREFIX@ + email@, now) is None
                && directory_user is Some,
            redis.live_value(RECOVERY_KEY_PREFIX@ + email@, now) is Some ==> r == Err::<
                RecoveryTicket,
                AuthError,
            >(AuthError::Conflict),
            redis.live_value(RECOVERY_KEY_PREFIX@ + email@, now) is None && directory_user
                is None ==> r == Err::<RecoveryTicket, AuthError>(AuthError::NotFound),
            r matches Ok(t) ==> {
                &&& t.email == email
                &&& exists|n: u64|
                    MIN_CODE <= n <= MAX_CODE && t.code@ == #[trigger] dec_str_of(n as nat)
                &&& directory_user matches Some(u) && t.mail.username@ == u.username@
                &&& t.mail.code == t.code
            },
    {
        let email_key = Self::get_record_key(&email);
        if redis.get(&email_key, now).is_some() {
            return Err(AuthError::Conflict);
        }
        let user = match directory_user {
            Some(u) => u,
            None => {
                return Err(AuthError::NotFound);
            },
        };
        let code = HasherService::generate_code_string();
        let mail = RecoveryMail::new(user.username, code.clone());
        Ok(RecoveryTicket { code, email, mail })
    }

    /// Commits an initiated recovery, once its notification has been
    /// delivered: both linked records are written under one lifetime.
    pub fn recovery_commit(redis: &mut RedisService, ticket: &RecoveryTicket, now: u64) -> (r:
        Result<(), AuthError>)
        requires
            old(redis).wf(),
            now + RECOVERY_TTL_MINUTES * 60 <= u64::MAX,
        ensures
            final(redis).wf(),
            r is Ok,
            final(redis).contents() == old(redis).contents().insert(
                RECOVERY_KEY_PREFIX@ + ticket.code@,
                (
                    RecordValue::Text(ticket.email),
                    (now + RECOVERY_TTL_MINUTES * 60) as u64,
                ),
            ).insert(
                RECOVERY_KEY_PREFIX@ + ticket.email@,
                (
                    RecordValue::Text(ticket.code),
                    (now + RECOVERY_TTL_MINUTES * 60) as u64,
                ),
            ),
    {
        let code_key = Self::get_record_key(&ticket.code);
        let email_key = Self::get_record_key(&ticket.email);
        redis.set_temporarily(
            code_key,
            RecordValue::Text(ticket.email.clone()),
            RECOVERY_TTL_MINUTES,
            now,
        );
        redis.set_temporarily(
            email_key,
            RecordValue::Text(ticket.code.clone()),
            RECOVERY_TTL_MINUTES,
            now,
        );
        Ok(())
    }

    /// Resolves a recovery code to its email, or "not found".
    pub fn get_record(redis: &RedisService, code: String, now: u64) -> (r: Result<
        String,
        AuthError,
    >)
        requires
            redis.wf(),
        ensures
            r matches Ok(e) ==> redis.live_value(RECOVERY_KEY_PREFIX@ + code@, now) == Some(
                RecordValue::Text(e),
            ),
            redis.live_value(RECOVERY_KEY_PREFIX@ + code@, now) matches Some(
                RecordValue::Text(e),
            ) ==> r == Ok::<String, AuthError>(e),
            r is Err ==> r == Err::<String, AuthError>(AuthError::NotFound),
    {
        let key = Self::get_record_key(&code);
        match redis.get(&key, now) {
            Some(RecordValue::Text(e)) => Ok(e),
            _ => Err(AuthError::NotFound),
        }
    }

    /// Whether a recovery record exists under this code.
    pub fn exist(redis: &RedisService, code: &String, now: u64) -> (r: Result<(), AuthError>)
        requires
            redis.wf(),
        ensures
            r is Ok <==> redis.live_value(RECOVERY_KEY_PREFIX@ + code@, now) is Some,
            r is Err ==> r == Err::<(), AuthError>(AuthError::NotFound),
    {
        let key = Self::get_record_key(code);
        if redis.get(&key, now).is_some() {
            Ok(())
        } else {
            Err(AuthError::NotFound)
        }
    }

    /// Checks a confirmation attempt: the code must resolve to an email
    /// and the replacement password must pass the validator's rules.
    /// Reads only; a rejection leaves every stored credential as it was.
    pub fn confirm(redis: &RedisService, code: String, password: String, now: u64) -> (r: Result<
        String,
        AuthError,
    >)
        requires
            redis.wf(),
        ensures
            r is Ok <==> (redis.live_value(RECOVERY_KEY_PREFIX@ + code@, now) matches Some(
                RecordValue::Text(_),
            )) && password_ok(password@),
            !(redis.live_value(RECOVERY_KEY_PREFIX@ + code@, now) matches Some(
                RecordValue::Text(_),
            )) ==> r == Err::<String, AuthError>(AuthError::NotFound),
            (redis.live_value(RECOVERY_KEY_PREFIX@ + code@, now) matches Some(
                RecordValue::Text(_),
            )) && !password_ok(password@) ==> r is Err && (r matches Err(
                AuthError::Validation(f, _),
            ) && f == Field::Password),
            r matches Ok(e) ==> redis.live_value(RECOVERY_KEY_PREFIX@ + code@, now) == Some(
                RecordValue::Text(e),
            ),
    {
        let email = Self::get_record(redis, code, now)?;
        AuthValidateService::validate_password(password)?;
        Ok(email)
    }

    /// Completes a confirmed recovery: generates a fresh salt, installs
    /// the salted hash of the new password on the row the directory
    /// resolved, and deletes both linked records together.
    pub fn confirm_commit(
        db: &mut AuthDb,
        redis: &mut RedisService,
        code: String,
        email: String,
        directory_id: i32,
        password: String,
        now: u64,
    ) -> (r: Result<(), AuthError>)
        requires
            old(db).wf(),
            old(redis).wf(),
        ensures
            final(db).wf(),
            final(redis).wf(),
            final(db).sessions@ == old(db).sessions@,
            final(db).next_session_id == old(db).next_session_id,
            final(db).next_user_id == old(db).next_user_id,
            r is Ok <==> exists|i: int|
                0 <= i < old(db).users@.len() && #[trigger] old(db).users@[i].id == directory_id,
            r is Err ==> r == Err::<(), AuthError>(AuthError::NotFound) && *final(db) == *old(db)
                && *final(redis) == *old(redis),
            r is Ok ==> exists|i: int|
                {
                    &&& 0 <= i < old(db).users@.len()
                    &&& #[trigger] old(db).users@[i].id == directory_id
                    &&& final(db).users@[i].id == old(db).users@[i].id
                    &&& final(db).users@[i].user_id == old(db).users@[i].user_id
                    &&& final(db).users@[i].username == old(db).users@[i].username
                    &&& final(db).users@[i].totp_secret == old(db).users@[i].totp_secret
                    &&& final(db).users@[i].salt@.len() == SALT_LEN
                    &&& final(db).users@[i].password@ == salted_hash(
                        password@,
                        final(db).users@[i].salt@,
                    )
                    &&& final(db).users@ =~= old(db).users@.update(i, final(db).users@[i])
                } && final(redis).contents() == old(redis).contents().remove(
                RECOVERY_KEY_PREFIX@ + code@,
            ).remove(RECOVERY_KEY_PREFIX@ + email@),
    {
        let user = match AuthRepository::find(db, directory_id) {
            Ok(u) => u,
            Err(_) => {
                return Err(AuthError::NotFound);
            },
        };
        let salt = HasherService::generate_salt();
        let hashed = HasherService::sha256(concat_str(password.as_str(), salt.as_str()));
        let count = AuthRepository::update(
            db,
            user.id,
            UserPasswordUpdate { salt, password: hashed },
        );
        proof {
            assert(count == 1);
        }
        let code_key = Self::get_record_key(&code);
        let email_key = Self::get_record_key(&email);
        redis.remove(&code_key);
        redis.remove(&email_key);
        Ok(())
    }
}

/// Law: while an initiated recovery is pending for an email — its two
/// records committed and unexpired — a second initiation for the same
/// email is rejected: the email-keyed record reads as present, which
/// [`RecoveryService::recovery`] answers with a conflict.
pub proof fn lemma_recovery_pending_blocks_second(
    pre: RedisService,
    post: RedisService,
    code_key: Seq<char>,
    email_key: Seq<char>,
    email_rec: RecordValue,
    code_rec: RecordValue,
    expires: u64,
    t: u64,
)
    requires
        post.contents() == pre.contents().insert(code_key, (email_rec, expires)).insert(
            email_key,
            (code_rec, expires),
        ),
        t < expires,
    ensures
        post.live_value(email_key, t) is Some,
{
}

} // verus!
