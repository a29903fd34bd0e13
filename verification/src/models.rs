//! The engine's data model: durable rows, staged records and request bodies.
//!
//! Timestamps are absolute seconds; a date lives here as that number, and
//! the boundary converts to and from its own calendar types.

use vstd::prelude::*;

verus! {

/// A durable credential row: the local mirror of one account.
///
/// `id` is the local row id; `user_id` is the identity's id in the remote
/// user directory, recorded when the account was created there.
#[verifier::ext_equal]
pub struct User {
    pub id: i32,
    pub user_id: i32,
    pub username: String,
    pub password: String,
    pub salt: String,
    pub totp_secret: Option<String>,
}

/// The directory collaborator's view of an identity.
#[verifier::ext_equal]
pub struct UserInUserService {
    pub id: i32,
    pub username: String,
    pub email: String,
}

/// A credential update: a fresh salt and the matching salted hash.
#[verifier::ext_equal]
pub struct UserPasswordUpdate {
    pub salt: String,
    pub password: String,
}

/// A row ready to insert: all credential material present, and the
/// directory id once it is known.
#[verifier::ext_equal]
pub struct UserAdd {
    pub user_id: Option<i32>,
    pub username: String,
    pub password: String,
    pub salt: String,
}

/// The identity-creation request forwarded to the user directory.
#[verifier::ext_equal]
pub struct UserCreate {
    pub username: String,
    pub email: String,
}

/// The public identity of a token's owner.
#[verifier::ext_equal]
pub struct BaseUserInfo {
    pub id: i32,
    pub username: String,
}

/// A registration request as submitted by the client.
#[verifier::ext_equal]
pub struct UserRegister {
    pub username: String,
    pub password: String,
    pub email: String,
}

/// A staged, not-yet-durable account, held behind a single-use code.
///
/// Built only through [`PendingRegistration::new`], which demands the salt
/// and the already-salted hash, so a half-prepared record cannot exist.
#[verifier::ext_equal]
pub struct PendingRegistration {
    pub username: String,
    pub email: String,
    pub password: String,
    pub salt: String,
}

impl PendingRegistration {
    /// Stages an account: `password` must already be the salted hash.
    pub fn new(username: String, email: String, password: String, salt: String) -> (r: Self)
        ensures
            r.username == username,
            r.email == email,
            r.password == password,
            r.salt == salt,
    {
        PendingRegistration { username, email, password, salt }
    }

    /// The row to insert once the directory has assigned `user_id`.
    pub fn to_user_add(&self, user_id: i32) -> (r: UserAdd)
        ensures
            r.user_id == Some(user_id),
            r.username@ == self.username@,
            r.password@ == self.password@,
            r.salt@ == self.salt@,
    {
        UserAdd {
            user_id: Some(user_id),
            username: self.username.clone(),
            password: self.password.clone(),
            salt: self.salt.clone(),
        }
    }

    /// The identity-creation request for the user directory.
    pub fn to_user_create(&self) -> (r: UserCreate)
        ensures
            r.username@ == self.username@,
            r.email@ == self.email@,
    {
        UserCreate { username: self.username.clone(), email: self.email.clone() }
    }
}

impl Clone for PendingRegistration {
    fn clone(&self) -> (r: Self)
        ensures
            r == *self,
    {
        let r = PendingRegistration {
            username: self.username.clone(),
            email: self.email.clone(),
            password: self.password.clone(),
            salt: self.salt.clone(),
        };
        proof {
            assert(r =~= *self);
        }
        r
    }
}

/// A login request.
#[verifier::ext_equal]
pub struct UserLogin {
    pub username: String,
    pub password: String,
}

/// A logged-in identity together with its access token.
#[verifier::ext_equal]
pub struct UserLoginedData {
    pub username: String,
    pub token: String,
}

/// One authenticated device context.
///
/// At most one active session exists per `(user_id, useragent)` pair; the
/// row is never removed, only flipped inactive.
#[verifier::ext_equal]
pub struct Session {
    pub id: i32,
    pub user_id: i32,
    pub useragent: String,
    pub jwt: String,
    pub refresh_token: String,
    pub is_active: bool,
    pub last_activity: u64,
}

impl Clone for Session {
    fn clone(&self) -> (r: Self)
        ensures
            r == *self,
    {
        let r = Session {
            id: self.id,
            user_id: self.user_id,
            useragent: self.useragent.clone(),
            jwt: self.jwt.clone(),
            refresh_token: self.refresh_token.clone(),
            is_active: self.is_active,
            last_activity: self.last_activity,
        };
        proof {
            assert(r =~= *self);
        }
        r
    }
}

/// The fields of a session row to be created; the store assigns the id.
#[verifier::ext_equal]
pub struct SessionCreate {
    pub user_id: i32,
    pub useragent: String,
    pub jwt: String,
    pub refresh_token: String,
    pub last_activity: u64,
}

/// An access-token rotation: the one column it changes.
#[verifier::ext_equal]
pub struct SessionUpdateJwt {
    pub jwt: String,
}

/// A session as listed to its owner: no token material.
#[verifier::ext_equal]
pub struct SessionSafe {
    pub id: i32,
    pub user_id: i32,
    pub useragent: String,
    pub last_activity: u64,
}

impl Clone for User {
    fn clone(&self) -> (r: Self)
        ensures
            r == *self,
    {
        let r = User {
            id: self.id,
            user_id: self.user_id,
            username: self.username.clone(),
            password: self.password.clone(),
            salt: self.salt.clone(),
            totp_secret: clone_optional_string(&self.totp_secret),
        };
        proof {
            assert(r =~= *self);
        }
        r
    }
}

/// Clones an optional string with its contents known to be preserved.
pub fn clone_optional_string(o: &Option<String>) -> (r: Option<String>)
    ensures
        r == *o,
{
    match o {
        Some(s) => Some(s.clone()),
        None => None,
    }
}

/// A refresh request body.
#[verifier::ext_equal]
pub struct RefreshToken {
    pub refresh_jwt: String,
}

/// A bare token carried in a request body.
#[verifier::ext_equal]
pub struct JsonWebToken {
    pub token: String,
}

/// A confirmation code carried as a query parameter.
#[verifier::ext_equal]
pub struct IdQuery {
    pub id: String,
}

/// A freshly generated second-factor enrollment: the secret and the
/// enrollment payload handed to the authenticator.
#[verifier::ext_equal]
pub struct TFAAddBody {
    pub secret: String,
    pub qr: String,
}

/// The username whose pending second-factor login is being confirmed.
#[verifier::ext_equal]
pub struct TFAQuery {
    pub username: String,
}

/// A submitted second-factor code.
#[verifier::ext_equal]
pub struct TFALoginBody {
    pub code: String,
}

/// A second-factor link request: the code proves the secret is enrolled.
#[verifier::ext_equal]
pub struct TFALinkBody {
    pub code: String,
    pub secret: String,
}

} // verus!
