//! The registration workflow.
//!
//! A submission is validated and staged, never persisted directly: the
//! prepared record waits in the ephemeral store behind a single-use
//! numeric code while a confirmation link is mailed. Confirming the
//! code promotes the staged record to a durable row exactly once; an
//! unknown or lapsed code is "not on the confirmation list" and creates
//! nothing. Staging happens in two steps — [`RegisterService::register`]
//! prepares the ticket and [`RegisterService::register_commit`] writes
//! it — so that a failed notification leaves no record behind.

use vstd::prelude::*;

use crate::errors::{AuthError, Field};
use crate::hasher::{salted_hash, HasherService, MAX_CODE, MIN_CODE, SALT_LEN};
use crate::mail::RegisterMail;
use crate::models::{PendingRegistration, User, UserRegister};
use crate::redis::{RecordValue, RedisService};
use crate::repository::{has_user_named, AuthDb, AuthRepository};
use crate::text::{concat_str, dec_str_of};
use crate::validate::{password_ok, username_ok, AuthValidateService};

verus! {

/// The namespace prefix of staged-registration keys.
pub const REGISTER_KEY_PREFIX: &'static str = "register:";

/// Minutes a staged registration stays confirmable.
pub const REGISTER_TTL_MINUTES: u64 = 10;

/// The confirmation link sent by mail, with the code appended.
pub const CONFIRM_URL_PREFIX: &'static str = "https://riverfallmc.ru/api/auth/confirm?id=";

/// Everything a staged registration produces: the store key and code,
/// the prepared record, and the notification to deliver before the
/// record is committed.
pub struct RegisterTicket {
    pub key: String,
    pub code: String,
    pub pending: PendingRegistration,
    pub mail: RegisterMail,
}

pub struct RegisterService;

impl RegisterService {
    /// The store key for a confirmation code; with `key` absent a fresh
    /// single-use code is generated. Returns the key and the bare code.
    pub fn generate_redis_confirm_key(key: Option<String>) -> (r: (String, String))
        ensures
            r.0@ == REGISTER_KEY_PREFIX@ + r.1@,
            key matches Some(k) ==> r.1 == k,
            key is None ==> exists|n: u64|
                MIN_CODE <= n <= MAX_CODE && r.1@ == #[trigger] dec_str_of(n as nat),
    {
        let code = match key {
            Some(k) => k,
            None => HasherService::generate_code_string(),
        };
        let full = concat_str(REGISTER_KEY_PREFIX, code.as_str());
        (full, code)
    }

    /// Stages a registration: validates the submission, checks the
    /// username locally and the email against the directory's answer,
    /// salts and hashes the password, generates the single-use code and
    /// composes the confirmation mail. Nothing is persisted yet.
    pub fn register(db: &AuthDb, user: UserRegister, email_taken: bool) -> (r: Result<
        RegisterTicket,
        AuthError,
    >)
        requires
            db.wf(),
        ensures
            r is Ok <==> username_ok(user.username@) && password_ok(user.password@)
                && !email_taken && !has_user_named(db.users@, user.username@),
            !username_ok(user.username@) ==> r is Err && (r matches Err(
                AuthError::Validation(f, _),
            ) && f == Field::Username),
            username_ok(user.username@) && !password_ok(user.password@) ==> r is Err && (
            r matches Err(AuthError::Validation(f, _)) && f == Field::Password),
            username_ok(user.username@) && password_ok(user.password@) && (email_taken
                || has_user_named(db.users@, user.username@)) ==> r == Err::<
                RegisterTicket,
                AuthError,
            >(AuthError::Conflict),
            r matches Ok(t) ==> {
                &&& t.pending.username@ == user.username@
                &&& t.pending.email@ == user.email@
                &&& t.pending.salt@.len() == SALT_LEN
                &&& t.pending.password@ == salted_hash(user.password@, t.pending.salt@)
                &&& t.key@ == REGISTER_KEY_PREFIX@ + t.code@
                &&& exists|n: u64|
                    MIN_CODE <= n <= MAX_CODE && t.code@ == #[trigger] dec_str_of(n as nat)
                &&& t.mail.username@ == user.username@
                &&& t.mail.url@ == CONFIRM_URL_PREFIX@ + t.code@
            },
    {
        AuthValidateService::validate(&user)?;
        AuthRepository::check_userdata_taken(db, &user.username, email_taken)?;
        let salt = HasherService::generate_salt();
        let hashed = HasherService::sha256(concat_str(user.password.as_str(), salt.as_str()));
        let (key, code) = Self::generate_redis_confirm_key(None);
        let url = concat_str(CONFIRM_URL_PREFIX, code.as_str());
        let mail = RegisterMail::new(user.username.clone(), url);
        let pending = PendingRegistration::new(user.username, user.email, hashed, salt);
        Ok(RegisterTicket { key, code, pending, mail })
    }

    /// Commits a staged registration to the ephemeral store, once its
    /// notification has been delivered; the record stays confirmable
    /// for a bounded window.
    pub fn register_commit(redis: &mut RedisService, ticket: &RegisterTicket, now: u64) -> (r:
        Result<(), AuthError>)
        requires
            old(redis).wf(),
            now + REGISTER_TTL_MINUTES * 60 <= u64::MAX,
        ensures
            final(redis).wf(),
            r is Ok,
            final(redis).contents() == old(redis).contents().insert(
                ticket.key@,
                (
                    RecordValue::Registration(ticket.pending),
                    (now + REGISTER_TTL_MINUTES * 60) as u64,
                ),
            ),
    {
        redis.set_temporarily(
            ticket.key.clone(),
            RecordValue::Registration(ticket.pending.clone()),
            REGISTER_TTL_MINUTES,
            now,
        );
        Ok(())
    }

    /// Looks a confirmation code up: the staged record if the code is
    /// on the confirmation list and unexpired, else "not on the list".
    /// Reads only; no row is created for a failed confirmation.
    pub fn confirm(redis: &RedisService, id: String, now: u64) -> (r: Result<
        PendingRegistration,
        AuthError,
    >)
        requires
            redis.wf(),
        ensures
            r matches Ok(p) ==> redis.live_value(REGISTER_KEY_PREFIX@ + id@, now) == Some(
                RecordValue::Registration(p),
            ),
            redis.live_value(REGISTER_KEY_PREFIX@ + id@, now) matches Some(
                RecordValue::Registration(p),
            ) ==> r == Ok::<PendingRegistration, AuthError>(p),
            r is Err ==> r == Err::<PendingRegistration, AuthError>(AuthError::NotFound),
    {
        let (key, _) = Self::generate_redis_confirm_key(Some(id));
        match redis.get(&key, now) {
            Some(RecordValue::Registration(p)) => Ok(p),
            _ => Err(AuthError::NotFound),
        }
    }

    /// Promotes a confirmed registration: inserts the durable row,
    /// tagged with the id the directory assigned, and consumes the
    /// staged record so the code can never confirm twice.
    pub fn confirm_commit(
        redis: &mut RedisService,
        db: &mut AuthDb,
        id: String,
        pending: &PendingRegistration,
        directory_id: i32,
        now: u64,
    ) -> (r: Result<(), AuthError>)
        requires
            old(redis).wf(),
            old(db).wf(),
            old(db).next_user_id < i32::MAX,
        ensures
            final(redis).wf(),
            final(db).wf(),
            final(db).sessions@ == old(db).sessions@,
            final(db).next_session_id == old(db).next_session_id,
            r is Ok <==> !has_user_named(old(db).users@, pending.username@),
            r is Err ==> r == Err::<(), AuthError>(AuthError::Conflict) && *final(db) == *old(db)
                && *final(redis) == *old(redis),
            r is Ok ==> {
                &&& final(db).users@.len() == old(db).users@.len() + 1
                &&& final(db).users@.drop_last() == old(db).users@
                &&& final(db).users@.last().id == old(db).next_user_id
                &&& final(db).users@.last().user_id == directory_id
                &&& final(db).users@.last().username@ == pending.username@
                &&& final(db).users@.last().password@ == pending.password@
                &&& final(db).users@.last().salt@ == pending.salt@
                &&& final(db).users@.last().totp_secret is None
                &&& final(db).next_user_id == old(db).next_user_id + 1
                &&& final(redis).contents() == old(redis).contents().remove(
                    REGISTER_KEY_PREFIX@ + id@,
                )
            },
    {
        if AuthRepository::find_by_username(db, &pending.username).is_ok() {
            return Err(AuthError::Conflict);
        }
        let row = pending.to_user_add(directory_id);
        let _ = AuthRepository::add(db, &row, directory_id);
        let (key, _) = Self::generate_redis_confirm_key(Some(id));
        redis.remove(&key);
        proof {
            assert(db.users@.drop_last() =~= old(db).users@);
        }
        Ok(())
    }
}

/// Law: confirming a valid code creates exactly one durable row and
/// consumes the staged record, so a second confirmation attempt with
/// the same code reads "not found" at any later time and creates no
/// additional row.
pub proof fn lemma_register_confirm_once(
    pre: RedisService,
    post: RedisService,
    users_pre: Seq<User>,
    users_post: Seq<User>,
    key: Seq<char>,
    row: User,
    t: u64,
)
    requires
        post.contents() == pre.contents().remove(key),
        users_post == users_pre.push(row),
    ensures
        post.live_value(key, t) is None,
        users_post.len() == users_pre.len() + 1,
        users_post.drop_last() == users_pre,
{
    assert(users_post.drop_last() =~= users_pre);
}

} // verus!
