//! The durable row store: credential rows and session rows.
//!
//! Rows live in an in-memory table with serial ids. Credential rows keep
//! unique ids and unique usernames; session rows keep unique ids and at
//! most one active row per `(user id, useragent)` pair. Session rows are
//! never removed: deletion flips the active flag.

use vstd::prelude::*;

use crate::errors::AuthError;
use crate::models::{Session, SessionCreate, SessionSafe, User, UserAdd, UserPasswordUpdate};

verus! {

/// Row ids are below the next id and pairwise distinct.
pub open spec fn user_rows_ok(users: Seq<User>, next: i32) -> bool {
    &&& forall|i: int| 0 <= i < users.len() ==> 0 <= #[trigger] users[i].id < next
    &&& forall|i: int, j: int| 0 <= i < j < users.len() ==> users[i].id != users[j].id
}

/// Usernames are pairwise distinct.
pub open spec fn usernames_unique(users: Seq<User>) -> bool {
    forall|i: int, j: int| 0 <= i < j < users.len() ==> users[i].username@ != users[j].username@
}

/// Some credential row carries this username.
pub open spec fn has_user_named(users: Seq<User>, name: Seq<char>) -> bool {
    exists|i: int| 0 <= i < users.len() && #[trigger] users[i].username@ == name
}

/// Session ids are below the next id and pairwise distinct.
pub open spec fn session_rows_ok(sessions: Seq<Session>, next: i32) -> bool {
    &&& forall|i: int| 0 <= i < sessions.len() ==> 0 <= #[trigger] sessions[i].id < next
    &&& forall|i: int, j: int| 0 <= i < j < sessions.len() ==> sessions[i].id != sessions[j].id
}

/// An active session for this user and device.
pub open spec fn is_active_match(s: Session, user_id: i32, ua: Seq<char>) -> bool {
    s.is_active && s.user_id == user_id && s.useragent@ == ua
}

/// At most one active session per `(user id, useragent)` pair.
pub open spec fn one_active_per_device(sessions: Seq<Session>) -> bool {
    forall|i: int, j: int|
        0 <= i < j < sessions.len() ==> !(#[trigger] sessions[i].is_active
            && #[trigger] sessions[j].is_active && sessions[i].user_id == sessions[j].user_id
            && sessions[i].useragent@ == sessions[j].useragent@)
}

/// The session at `i` is the first row carrying this access token.
pub open spec fn jwt_match_at(sessions: Seq<Session>, jwt: Seq<char>, i: int) -> bool {
    &&& 0 <= i < sessions.len()
    &&& sessions[i].jwt@ == jwt
    &&& forall|j: int| 0 <= j < i ==> sessions[j].jwt@ != jwt
}

/// The session at `i` is the first row carrying this refresh token.
pub open spec fn refresh_match_at(sessions: Seq<Session>, refresh: Seq<char>, i: int) -> bool {
    &&& 0 <= i < sessions.len()
    &&& sessions[i].refresh_token@ == refresh
    &&& forall|j: int| 0 <= j < i ==> sessions[j].refresh_token@ != refresh
}

/// Some active session exists for this user and device.
pub open spec fn has_active_session(sessions: Seq<Session>, user_id: i32, ua: Seq<char>) -> bool {
    exists|i: int| 0 <= i < sessions.len() && is_active_match(#[trigger] sessions[i], user_id, ua)
}

/// The index of the active session for this user and device; meaningful
/// only under [`has_active_session`], and unique under
/// [`one_active_per_device`].
pub open spec fn active_session_index(sessions: Seq<Session>, user_id: i32, ua: Seq<char>) -> int {
    choose|i: int| 0 <= i < sessions.len() && is_active_match(#[trigger] sessions[i], user_id, ua)
}

/// The row store.
pub struct AuthDb {
    pub users: Vec<User>,
    pub sessions: Vec<Session>,
    pub next_user_id: i32,
    pub next_session_id: i32,
}

impl AuthDb {
    /// The store's invariant, established empty and preserved by every
    /// operation.
    pub open spec fn wf(self) -> bool {
        &&& 0 < self.next_user_id
        &&& 0 < self.next_session_id
        &&& user_rows_ok(self.users@, self.next_user_id)
        &&& usernames_unique(self.users@)
        &&& session_rows_ok(self.sessions@, self.next_session_id)
        &&& one_active_per_device(self.sessions@)
    }

    /// An empty store.
    pub fn new() -> (r: Self)
        ensures
            r.wf(),
            r.users@.len() == 0,
            r.sessions@.len() == 0,
            r.next_user_id == 1,
            r.next_session_id == 1,
    {
        AuthDb { users: Vec::new(), sessions: Vec::new(), next_user_id: 1, next_session_id: 1 }
    }
}

/// `updated` is `base` with the salt and password replaced by `data`'s.
pub open spec fn password_updated(base: User, updated: User, data: UserPasswordUpdate) -> bool {
    &&& updated.id == base.id
    &&& updated.user_id == base.user_id
    &&& updated.username == base.username
    &&& updated.password == data.password
    &&& updated.salt == data.salt
    &&& updated.totp_secret == base.totp_secret
}

/// `updated` is `base` with the second-factor secret set to `secret`.
pub open spec fn totp_updated(base: User, updated: User, secret: String) -> bool {
    &&& updated.id == base.id
    &&& updated.user_id == base.user_id
    &&& updated.username == base.username
    &&& updated.password == base.password
    &&& updated.salt == base.salt
    &&& updated.totp_secret == Some(secret)
}

/// `row` is the inserted form of `user` under id `id`.
pub open spec fn user_row_of(row: User, user: UserAdd, directory_id: i32, id: i32) -> bool {
    &&& row.id == id
    &&& row.user_id == directory_id
    &&& row.username == user.username
    &&& row.password == user.password
    &&& row.salt == user.salt
    &&& row.totp_secret is None
}

pub struct AuthRepository;

impl AuthRepository {
    /// Looks a credential row up by id.
    pub fn find(db: &AuthDb, id: i32) -> (r: Result<User, AuthError>)
        requires
            db.wf(),
        ensures
            r is Ok <==> exists|i: int|
                0 <= i < db.users@.len() && #[trigger] db.users@[i].id == id,
            r matches Ok(u) ==> u.id == id && exists|i: int|
                0 <= i < db.users@.len() && #[trigger] db.users@[i] == u,
            r is Err ==> r == Err::<User, AuthError>(AuthError::NotFound),
    {
        let n = db.users.len();
        for i in 0..n
            invariant
                n == db.users@.len(),
                forall|j: int| 0 <= j < i ==> #[trigger] db.users@[j].id != id,
        {
            if db.users[i].id == id {
                return Ok(db.users[i].clone());
            }
        }
        Err(AuthError::NotFound)
    }

    /// Looks a credential row up by username.
    pub fn find_by_username(db: &AuthDb, username: &String) -> (r: Result<User, AuthError>)
        requires
            db.wf(),
        ensures
            r is Ok <==> exists|i: int|
                0 <= i < db.users@.len() && #[trigger] db.users@[i].username@ == username@,
            r matches Ok(u) ==> u.username@ == username@ && exists|i: int|
                0 <= i < db.users@.len() && #[trigger] db.users@[i] == u,
            r is Err ==> r == Err::<User, AuthError>(AuthError::NotFound),
    {
        let n = db.users.len();
        for i in 0..n
            invariant
                n == db.users@.len(),
                forall|j: int| 0 <= j < i ==> #[trigger] db.users@[j].username@ != username@,
        {
            if db.users[i].username.eq(username) {
                return Ok(db.users[i].clone());
            }
        }
        Err(AuthError::NotFound)
    }

    /// Inserts a credential row and returns its id. The caller has
    /// already established that the username is free and that the
    /// directory assigned `directory_id`.
    pub fn add(db: &mut AuthDb, user: &UserAdd, directory_id: i32) -> (r: i32)
        requires
            old(db).wf(),
            old(db).next_user_id < i32::MAX,
            forall|i: int|
                0 <= i < old(db).users@.len() ==> #[trigger] old(db).users@[i].username@
                    != user.username@,
        ensures
            final(db).wf(),
            r == old(db).next_user_id,
            final(db).users@.len() == old(db).users@.len() + 1,
            user_row_of(final(db).users@.last(), *user, directory_id, r),
            final(db).users@.drop_last() =~= old(db).users@,
            final(db).sessions@ == old(db).sessions@,
            final(db).next_session_id == old(db).next_session_id,
            final(db).next_user_id == old(db).next_user_id + 1,
    {
        let id = db.next_user_id;
        let row = User {
            id,
            user_id: directory_id,
            username: user.username.clone(),
            password: user.password.clone(),
            salt: user.salt.clone(),
            totp_secret: None,
        };
        db.users.push(row);
        db.next_user_id = id + 1;
        proof {
            assert(db.users@.drop_last() =~= old(db).users@);
            assert(forall|p: int|
                0 <= p < old(db).users@.len() ==> db.users@[p] == old(db).users@[p]);
            assert(user_rows_ok(db.users@, db.next_user_id));
            assert(usernames_unique(db.users@));
        }
        id
    }

    /// Checks whether the username is taken locally or the email is
    /// taken in the user directory; `email_taken` carries the
    /// directory's answer.
    pub fn check_userdata_taken(db: &AuthDb, username: &String, email_taken: bool) -> (r: Result<
        (),
        AuthError,
    >)
        requires
            db.wf(),
        ensures
            r is Ok <==> !email_taken && !exists|i: int|
                0 <= i < db.users@.len() && #[trigger] db.users@[i].username@ == username@,
            r is Err ==> r == Err::<(), AuthError>(AuthError::Conflict),
    {
        match Self::find_by_username(db, username) {
            Ok(_) => Err(AuthError::Conflict),
            Err(_) => {
                if email_taken {
                    Err(AuthError::Conflict)
                } else {
                    Ok(())
                }
            },
        }
    }

    /// Replaces the salt and password of the row with this id; returns
    /// how many rows matched.
    #[verifier::loop_isolation(false)]
    pub fn update(db: &mut AuthDb, id: i32, data: UserPasswordUpdate) -> (r: usize)
        requires
            old(db).wf(),
        ensures
            final(db).wf(),
            final(db).sessions@ == old(db).sessions@,
            final(db).next_session_id == old(db).next_session_id,
            final(db).next_user_id == old(db).next_user_id,
            r <= 1,
            r == 1 <==> exists|i: int|
                0 <= i < old(db).users@.len() && #[trigger] old(db).users@[i].id == id,
            r == 0 ==> final(db).users@ == old(db).users@,
            r == 1 ==> exists|i: int|
                {
                    &&& 0 <= i < old(db).users@.len()
                    &&& #[trigger] old(db).users@[i].id == id
                    &&& password_updated(old(db).users@[i], final(db).users@[i], data)
                    &&& final(db).users@ =~= old(db).users@.update(i, final(db).users@[i])
                },
    {
        let n = db.users.len();
        for i in 0..n
            invariant
                *db == *old(db),
                forall|j: int| 0 <= j < i ==> #[trigger] db.users@[j].id != id,
        {
            if db.users[i].id == id {
                let updated = User {
                    id: db.users[i].id,
                    user_id: db.users[i].user_id,
                    username: db.users[i].username.clone(),
                    password: data.password,
                    salt: data.salt,
                    totp_secret: crate::models::clone_optional_string(&db.users[i].totp_secret),
                };
                db.users[i] = updated;
                proof {
                    assert(forall|p: int|
                        0 <= p < db.users@.len() && p != i ==> db.users@[p] == old(
                            db,
                        ).users@[p]);
                    assert(password_updated(old(db).users@[i as int], db.users@[i as int], data));
                    assert(db.users@ =~= old(db).users@.update(i as int, db.users@[i as int]));
                    assert(user_rows_ok(db.users@, db.next_user_id));
                    assert(usernames_unique(db.users@));
                }
                return 1;
            }
        }
        0
    }

    /// Stores a second-factor secret on the row with this id; returns
    /// how many rows matched.
    #[verifier::loop_isolation(false)]
    pub fn update_totp(db: &mut AuthDb, id: i32, secret: String) -> (r: usize)
        requires
            old(db).wf(),
        ensures
            final(db).wf(),
            final(db).sessions@ == old(db).sessions@,
            final(db).next_session_id == old(db).next_session_id,
            final(db).next_user_id == old(db).next_user_id,
            r <= 1,
            r == 1 <==> exists|i: int|
                0 <= i < old(db).users@.len() && #[trigger] old(db).users@[i].id == id,
            r == 0 ==> final(db).users@ == old(db).users@,
            r == 1 ==> exists|i: int|
                {
                    &&& 0 <= i < old(db).users@.len()
                    &&& #[trigger] old(db).users@[i].id == id
                    &&& totp_updated(old(db).users@[i], final(db).users@[i], secret)
                    &&& final(db).users@ =~= old(db).users@.update(i, final(db).users@[i])
                },
    {
        let n = db.users.len();
        for i in 0..n
            invariant
                *db == *old(db),
                forall|j: int| 0 <= j < i ==> #[trigger] db.users@[j].id != id,
        {
            if db.users[i].id == id {
                let updated = User {
                    id: db.users[i].id,
                    user_id: db.users[i].user_id,
                    username: db.users[i].username.clone(),
                    password: db.users[i].password.clone(),
                    salt: db.users[i].salt.clone(),
                    totp_secret: Some(secret),
                };
                db.users[i] = updated;
                proof {
                    assert(forall|p: int|
                        0 <= p < db.users@.len() && p != i ==> db.users@[p] == old(
                            db,
                        ).users@[p]);
                    assert(totp_updated(old(db).users@[i as int], db.users@[i as int], updated.totp_secret->0));
                    assert(db.users@ =~= old(db).users@.update(i as int, db.users@[i as int]));
                    assert(user_rows_ok(db.users@, db.next_user_id));
                    assert(usernames_unique(db.users@));
                }
                return 1;
            }
        }
        0
    }
}

/// `row` is the session row inserted for `c` under id `id`.
pub open spec fn session_row_of(row: Session, c: SessionCreate, id: i32) -> bool {
    &&& row.id == id
    &&& row.user_id == c.user_id
    &&& row.useragent == c.useragent
    &&& row.jwt == c.jwt
    &&& row.refresh_token == c.refresh_token
    &&& row.is_active == true
    &&& row.last_activity == c.last_activity
}

/// `updated` is `base` with the access token replaced by `jwt`.
pub open spec fn jwt_updated(base: Session, updated: Session, jwt: String) -> bool {
    &&& updated.id == base.id
    &&& updated.user_id == base.user_id
    &&& updated.useragent == base.useragent
    &&& updated.jwt == jwt
    &&& updated.refresh_token == base.refresh_token
    &&& updated.is_active == base.is_active
    &&& updated.last_activity == base.last_activity
}

/// `updated` is `base` flipped inactive.
pub open spec fn deactivated(base: Session, updated: Session) -> bool {
    &&& updated.id == base.id
    &&& updated.user_id == base.user_id
    &&& updated.useragent == base.useragent
    &&& updated.jwt == base.jwt
    &&& updated.refresh_token == base.refresh_token
    &&& updated.is_active == false
    &&& updated.last_activity == base.last_activity
}

/// `safe` is the token-free listing of `s`.
pub open spec fn is_safe_of(safe: SessionSafe, s: Session) -> bool {
    &&& safe.id == s.id
    &&& safe.user_id == s.user_id
    &&& safe.useragent == s.useragent
    &&& safe.last_activity == s.last_activity
}

pub struct SessionRepository;

impl SessionRepository {
    /// Inserts a session row, active, under a fresh id, and returns it.
    pub fn add(db: &mut AuthDb, session: SessionCreate) -> (r: Session)
        requires
            old(db).wf(),
            old(db).next_session_id < i32::MAX,
            !has_active_session(old(db).sessions@, session.user_id, session.useragent@),
        ensures
            final(db).wf(),
            final(db).users@ == old(db).users@,
            final(db).next_user_id == old(db).next_user_id,
            final(db).next_session_id == old(db).next_session_id + 1,
            final(db).sessions@.len() == old(db).sessions@.len() + 1,
            final(db).sessions@.drop_last() =~= old(db).sessions@,
            session_row_of(final(db).sessions@.last(), session, old(db).next_session_id),
            r == final(db).sessions@.last(),
    {
        let id = db.next_session_id;
        let row = Session {
            id,
            user_id: session.user_id,
            useragent: session.useragent,
            jwt: session.jwt,
            refresh_token: session.refresh_token,
            is_active: true,
            last_activity: session.last_activity,
        };
        let r = row.clone();
        db.sessions.push(row);
        db.next_session_id = id + 1;
        proof {
            assert(db.sessions@.drop_last() =~= old(db).sessions@);
            assert(forall|p: int|
                0 <= p < old(db).sessions@.len() ==> db.sessions@[p] == old(db).sessions@[p]);
            assert(session_rows_ok(db.sessions@, db.next_session_id));
            assert(one_active_per_device(db.sessions@));
        }
        r
    }

    /// Replaces the access token of the session with this id; returns
    /// how many rows matched.
    #[verifier::loop_isolation(false)]
    pub fn update_jwt(db: &mut AuthDb, session_id: i32, jwt: String) -> (r: usize)
        requires
            old(db).wf(),
        ensures
            final(db).wf(),
            final(db).users@ == old(db).users@,
            final(db).next_user_id == old(db).next_user_id,
            final(db).next_session_id == old(db).next_session_id,
            r <= 1,
            r == 1 <==> exists|i: int|
                0 <= i < old(db).sessions@.len() && #[trigger] old(db).sessions@[i].id
                    == session_id,
            r == 0 ==> final(db).sessions@ == old(db).sessions@,
            r == 1 ==> exists|i: int|
                {
                    &&& 0 <= i < old(db).sessions@.len()
                    &&& #[trigger] old(db).sessions@[i].id == session_id
                    &&& jwt_updated(old(db).sessions@[i], final(db).sessions@[i], jwt)
                    &&& final(db).sessions@ =~= old(db).sessions@.update(
                        i,
                        final(db).sessions@[i],
                    )
                },
    {
        let n = db.sessions.len();
        for i in 0..n
            invariant
                *db == *old(db),
                forall|j: int| 0 <= j < i ==> #[trigger] db.sessions@[j].id != session_id,
        {
            if db.sessions[i].id == session_id {
                let updated = Session {
                    id: db.sessions[i].id,
                    user_id: db.sessions[i].user_id,
                    useragent: db.sessions[i].useragent.clone(),
                    jwt,
                    refresh_token: db.sessions[i].refresh_token.clone(),
                    is_active: db.sessions[i].is_active,
                    last_activity: db.sessions[i].last_activity,
                };
                db.sessions[i] = updated;
                proof {
                    assert(forall|p: int|
                        0 <= p < db.sessions@.len() && p != i ==> db.sessions@[p] == old(
                            db,
                        ).sessions@[p]);
                    assert(jwt_updated(
                        old(db).sessions@[i as int],
                        db.sessions@[i as int],
                        db.sessions@[i as int].jwt,
                    ));
                    assert(db.sessions@ =~= old(db).sessions@.update(
                        i as int,
                        db.sessions@[i as int],
                    ));
                    assert(session_rows_ok(db.sessions@, db.next_session_id));
                    assert(one_active_per_device(db.sessions@));
                }
                return 1;
            }
        }
        0
    }

    /// Replaces the access token of the session with this id and
    /// returns the updated row.
    #[verifier::loop_isolation(false)]
    pub fn update(db: &mut AuthDb, session_id: i32, jwt: String) -> (r: Result<Session, AuthError>)
        requires
            old(db).wf(),
        ensures
            final(db).wf(),
            final(db).users@ == old(db).users@,
            final(db).next_user_id == old(db).next_user_id,
            final(db).next_session_id == old(db).next_session_id,
            r is Ok <==> exists|i: int|
                0 <= i < old(db).sessions@.len() && #[trigger] old(db).sessions@[i].id
                    == session_id,
            r matches Err(e) ==> e == AuthError::NotFound && final(db).sessions@ == old(
                db,
            ).sessions@,
            r matches Ok(s) ==> exists|i: int|
                {
                    &&& 0 <= i < old(db).sessions@.len()
                    &&& #[trigger] old(db).sessions@[i].id == session_id
                    &&& jwt_updated(old(db).sessions@[i], final(db).sessions@[i], jwt)
                    &&& final(db).sessions@ =~= old(db).sessions@.update(
                        i,
                        final(db).sessions@[i],
                    )
                    &&& s == final(db).sessions@[i]
                },
    {
        let n = db.sessions.len();
        for i in 0..n
            invariant
                *db == *old(db),
                forall|j: int| 0 <= j < i ==> #[trigger] db.sessions@[j].id != session_id,
        {
            if db.sessions[i].id == session_id {
                let updated = Session {
                    id: db.sessions[i].id,
                    user_id: db.sessions[i].user_id,
                    useragent: db.sessions[i].useragent.clone(),
                    jwt,
                    refresh_token: db.sessions[i].refresh_token.clone(),
                    is_active: db.sessions[i].is_active,
                    last_activity: db.sessions[i].last_activity,
                };
                let result = updated.clone();
                db.sessions[i] = updated;
                proof {
                    assert(forall|p: int|
                        0 <= p < db.sessions@.len() && p != i ==> db.sessions@[p] == old(
                            db,
                        ).sessions@[p]);
                    assert(jwt_updated(
                        old(db).sessions@[i as int],
                        db.sessions@[i as int],
                        db.sessions@[i as int].jwt,
                    ));
                    assert(db.sessions@ =~= old(db).sessions@.update(
                        i as int,
                        db.sessions@[i as int],
                    ));
                    assert(session_rows_ok(db.sessions@, db.next_session_id));
                    assert(one_active_per_device(db.sessions@));
                }
                return Ok(result);
            }
        }
        Err(AuthError::NotFound)
    }

    /// Looks a session up by its refresh token.
    pub fn find_by_refresh(db: &AuthDb, refresh: &String) -> (r: Result<Session, AuthError>)
        requires
            db.wf(),
        ensures
            r is Ok <==> exists|i: int|
                0 <= i < db.sessions@.len() && #[trigger] db.sessions@[i].refresh_token@
                    == refresh@,
            r matches Ok(s) ==> exists|i: int|
                #[trigger] refresh_match_at(db.sessions@, refresh@, i) && db.sessions@[i] == s,
            r is Err ==> r == Err::<Session, AuthError>(AuthError::NotFound),
    {
        let n = db.sessions.len();
        for i in 0..n
            invariant
                n == db.sessions@.len(),
                forall|j: int| 0 <= j < i ==> #[trigger] db.sessions@[j].refresh_token@ != refresh@,
        {
            if db.sessions[i].refresh_token.eq(refresh) {
                proof {
                    assert(refresh_match_at(db.sessions@, refresh@, i as int));
                }
                return Ok(db.sessions[i].clone());
            }
        }
        Err(AuthError::NotFound)
    }

    /// Looks a session up by its access token.
    pub fn find_by_jwt(db: &AuthDb, jwt: &String) -> (r: Result<Session, AuthError>)
        requires
            db.wf(),
        ensures
            r is Ok <==> exists|i: int|
                0 <= i < db.sessions@.len() && #[trigger] db.sessions@[i].jwt@ == jwt@,
            r matches Ok(s) ==> exists|i: int|
                #[trigger] jwt_match_at(db.sessions@, jwt@, i) && db.sessions@[i] == s,
            r is Err ==> r == Err::<Session, AuthError>(AuthError::NotFound),
    {
        let n = db.sessions.len();
        for i in 0..n
            invariant
                n == db.sessions@.len(),
                forall|j: int| 0 <= j < i ==> #[trigger] db.sessions@[j].jwt@ != jwt@,
        {
            if db.sessions[i].jwt.eq(jwt) {
                proof {
                    assert(jwt_match_at(db.sessions@, jwt@, i as int));
                }
                return Ok(db.sessions[i].clone());
            }
        }
        Err(AuthError::NotFound)
    }

    /// Logically deletes the session with this id: the row stays but is
    /// flipped inactive. Returns how many rows matched.
    #[verifier::loop_isolation(false)]
    pub fn delete(db: &mut AuthDb, id: i32) -> (r: usize)
        requires
            old(db).wf(),
        ensures
            final(db).wf(),
            final(db).users@ == old(db).users@,
            final(db).next_user_id == old(db).next_user_id,
            final(db).next_session_id == old(db).next_session_id,
            r <= 1,
            r == 1 <==> exists|i: int|
                0 <= i < old(db).sessions@.len() && #[trigger] old(db).sessions@[i].id == id,
            r == 0 ==> final(db).sessions@ == old(db).sessions@,
            r == 1 ==> exists|i: int|
                {
                    &&& 0 <= i < old(db).sessions@.len()
                    &&& #[trigger] old(db).sessions@[i].id == id
                    &&& deactivated(old(db).sessions@[i], final(db).sessions@[i])
                    &&& final(db).sessions@ =~= old(db).sessions@.update(
                        i,
                        final(db).sessions@[i],
                    )
                },
    {
        let n = db.sessions.len();
        for i in 0..n
            invariant
                *db == *old(db),
                forall|j: int| 0 <= j < i ==> #[trigger] db.sessions@[j].id != id,
        {
            if db.sessions[i].id == id {
                let updated = Session {
                    id: db.sessions[i].id,
                    user_id: db.sessions[i].user_id,
                    useragent: db.sessions[i].useragent.clone(),
                    jwt: db.sessions[i].jwt.clone(),
                    refresh_token: db.sessions[i].refresh_token.clone(),
                    is_active: false,
                    last_activity: db.sessions[i].last_activity,
                };
                db.sessions[i] = updated;
                proof {
                    assert(forall|p: int|
                        0 <= p < db.sessions@.len() && p != i ==> db.sessions@[p] == old(
                            db,
                        ).sessions@[p]);
                    assert(deactivated(old(db).sessions@[i as int], db.sessions@[i as int]));
                    assert(db.sessions@ =~= old(db).sessions@.update(
                        i as int,
                        db.sessions@[i as int],
                    ));
                    assert(session_rows_ok(db.sessions@, db.next_session_id));
                    assert(one_active_per_device(db.sessions@));
                }
                return 1;
            }
        }
        0
    }

    /// Finds the active session for this user and device.
    pub fn get(db: &AuthDb, user_id: i32, user_agent: &str) -> (r: Result<Session, AuthError>)
        requires
            db.wf(),
        ensures
            r is Ok <==> has_active_session(db.sessions@, user_id, user_agent@),
            r matches Ok(s) ==> is_active_match(s, user_id, user_agent@) && exists|i: int|
                0 <= i < db.sessions@.len() && #[trigger] db.sessions@[i] == s,
            r is Err ==> r == Err::<Session, AuthError>(AuthError::NotFound),
    {
        let n = db.sessions.len();
        for i in 0..n
            invariant
                n == db.sessions@.len(),
                forall|j: int|
                    0 <= j < i ==> !is_active_match(#[trigger] db.sessions@[j], user_id, user_agent@),
        {
            let s = &db.sessions[i];
            if s.is_active && s.user_id == user_id && str_eq(s.useragent.as_str(), user_agent) {
                return Ok(db.sessions[i].clone());
            }
        }
        Err(AuthError::NotFound)
    }

    /// Lists the active sessions of a user, without token material, in
    /// row order.
    #[verifier::loop_isolation(false)]
    pub fn get_sessions(db: &AuthDb, user_id: i32) -> (r: Vec<SessionSafe>)
        requires
            db.wf(),
        ensures
            r@.len() == db.sessions@.filter(
                |s: Session| s.is_active && s.user_id == user_id,
            ).len(),
            forall|k: int|
                0 <= k < r@.len() ==> is_safe_of(
                    #[trigger] r@[k],
                    db.sessions@.filter(|s: Session| s.is_active && s.user_id == user_id)[k],
                ),
    {
        let ghost pred = |s: Session| s.is_active && s.user_id == user_id;
        let mut r: Vec<SessionSafe> = Vec::new();
        let n = db.sessions.len();
        proof {
            assert(db.sessions@.take(0int).filter(pred) =~= Seq::<Session>::empty());
        }
        for i in 0..n
            invariant
                r@.len() == db.sessions@.take(i as int).filter(pred).len(),
                forall|k: int|
                    0 <= k < r@.len() ==> is_safe_of(
                        #[trigger] r@[k],
                        db.sessions@.take(i as int).filter(pred)[k],
                    ),
        {
            let ghost prefix = db.sessions@.take(i as int);
            let ghost prefix1 = db.sessions@.take(i as int + 1);
            proof {
                reveal(Seq::filter);
                assert(prefix1.drop_last() =~= prefix);
                assert(prefix1.last() == db.sessions@[i as int]);
            }
            let s = &db.sessions[i];
            if s.is_active && s.user_id == user_id {
                r.push(
                    SessionSafe {
                        id: s.id,
                        user_id: s.user_id,
                        useragent: s.useragent.clone(),
                        last_activity: s.last_activity,
                    },
                );
                proof {
                    reveal(Seq::filter);
                    assert(prefix1.filter(pred) =~= prefix.filter(pred).push(prefix1.last()));
                    assert(is_safe_of(r@.last(), db.sessions@[i as int]));
                }
            } else {
                proof {
                    reveal(Seq::filter);
                    assert(prefix1.filter(pred) =~= prefix.filter(pred));
                }
            }
        }
        proof {
            assert(db.sessions@.take(n as int) =~= db.sessions@);
        }
        r
    }
}

/// Compares two string slices by their characters.
pub fn str_eq(a: &str, b: &str) -> (r: bool)
    ensures
        r == (a@ == b@),
{
    let a_string: String = a.to_owned();
    a_string.eq(&b.to_owned())
}

} // verus!
