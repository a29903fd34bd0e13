//! The session lifecycle manager.
//!
//! Given an authenticated user and a device fingerprint it decides, in
//! this order: no session for the pair means create one; a session whose
//! refresh token is dead is unrecoverable, so it is deactivated and a
//! brand-new one created; a live refresh token with a dead access token
//! means only the access token is rotated; two live tokens mean the
//! session is returned unchanged. The asymmetry is deliberate: a dead
//! refresh token invalidates the whole session, while a dead access
//! token is a routine, cheap event.

use vstd::prelude::*;

use crate::errors::AuthError;
use crate::jwt::{
    jwt_claims_of, jwt_of, time_fits, token_live, Claims, JWTService, ACCESS_TOKEN_SECONDS,
    REFRESH_TOKEN_SECONDS,
};
use crate::models::{Session, SessionCreate, User};
use crate::repository::{
    active_session_index, deactivated, has_active_session, is_active_match, jwt_match_at,
    jwt_updated, one_active_per_device, refresh_match_at, session_rows_ok, AuthDb,
    SessionRepository,
};

verus! {

/// `s` is a brand-new session row for this user and device, created at
/// `now` under id `id`: active, with a fresh access token and a fresh
/// refresh token.
pub open spec fn fresh_session_for(
    s: Session,
    user_id: i32,
    ua: Seq<char>,
    now: u64,
    secret: Seq<char>,
    id: i32,
) -> bool {
    &&& s.id == id
    &&& s.user_id == user_id
    &&& s.useragent@ == ua
    &&& s.jwt@ == jwt_of(secret, user_id as i64, (now + ACCESS_TOKEN_SECONDS) as u64, false)
    &&& jwt_claims_of(secret, s.jwt@) == Some(
        Claims { sub: user_id as i64, exp: (now + ACCESS_TOKEN_SECONDS) as u64, refresh: false },
    )
    &&& s.refresh_token@ == jwt_of(
        secret,
        user_id as i64,
        (now + REFRESH_TOKEN_SECONDS) as u64,
        true,
    )
    &&& jwt_claims_of(secret, s.refresh_token@) == Some(
        Claims { sub: user_id as i64, exp: (now + REFRESH_TOKEN_SECONDS) as u64, refresh: true },
    )
    &&& s.is_active == true
    &&& s.last_activity == now
}

/// `s1` is `s0` with only the access token replaced by one issued at
/// `now` for `s0`'s owner.
pub open spec fn rotated_session(s0: Session, s1: Session, now: u64, secret: Seq<char>) -> bool {
    &&& s1.id == s0.id
    &&& s1.user_id == s0.user_id
    &&& s1.useragent == s0.useragent
    &&& s1.jwt@ == jwt_of(secret, s0.user_id as i64, (now + ACCESS_TOKEN_SECONDS) as u64, false)
    &&& jwt_claims_of(secret, s1.jwt@) == Some(
        Claims {
            sub: s0.user_id as i64,
            exp: (now + ACCESS_TOKEN_SECONDS) as u64,
            refresh: false,
        },
    )
    &&& s1.refresh_token == s0.refresh_token
    &&& s1.is_active == s0.is_active
    &&& s1.last_activity == s0.last_activity
}

/// The whole transition a successful `SessionService::get` makes, from
/// the session table `pre` (next id `pre_next`) to `post`, returning
/// `r`, for `user_id` on device `ua` at time `now`.
pub open spec fn obtained_session(
    pre: Seq<Session>,
    pre_next: i32,
    post: Seq<Session>,
    post_next: i32,
    r: Session,
    user_id: i32,
    ua: Seq<char>,
    now: u64,
    secret: Seq<char>,
) -> bool {
    if !has_active_session(pre, user_id, ua) {
        // No session for the pair: a fresh one is appended.
        &&& post.len() == pre.len() + 1
        &&& post.drop_last() == pre
        &&& fresh_session_for(post.last(), user_id, ua, now, secret, pre_next)
        &&& r == post.last()
        &&& post_next == pre_next + 1
    } else {
        let i = active_session_index(pre, user_id, ua);
        let s0 = pre[i];
        if !token_live(secret, s0.refresh_token@, now) {
            // Dead refresh token: the session is deactivated and a
            // brand-new one appended.
            &&& post.len() == pre.len() + 1
            &&& deactivated(s0, post[i])
            &&& post.drop_last() == pre.update(i, post[i])
            &&& fresh_session_for(post.last(), user_id, ua, now, secret, pre_next)
            &&& r == post.last()
            &&& post_next == pre_next + 1
        } else if !token_live(secret, s0.jwt@, now) {
            // Live refresh, dead access token: rotate the access token
            // in place.
            &&& post == pre.update(i, r)
            &&& rotated_session(s0, r, now, secret)
            &&& post_next == pre_next
        } else {
            // Both live: nothing changes.
            &&& post == pre
            &&& r == s0
            &&& post_next == pre_next
        }
    }
}

/// Two active matches for one `(user, device)` pair are the same row.
proof fn lemma_unique_active(ss: Seq<Session>, user_id: i32, ua: Seq<char>, i: int)
    requires
        one_active_per_device(ss),
        0 <= i < ss.len(),
        is_active_match(ss[i], user_id, ua),
    ensures
        has_active_session(ss, user_id, ua),
        active_session_index(ss, user_id, ua) == i,
{
    assert(has_active_session(ss, user_id, ua));
    let j = active_session_index(ss, user_id, ua);
    assert(0 <= j < ss.len() && is_active_match(ss[j], user_id, ua));
    if i < j {
        assert(false);
    }
    if j < i {
        assert(false);
    }
}

pub struct SessionService;

impl SessionService {
    /// Inserts a brand-new session row carrying the two given tokens.
    fn create_with_tokens(
        db: &mut AuthDb,
        user_id: i32,
        user_agent: &str,
        now: u64,
        jwt: String,
        refresh_token: String,
    ) -> (r: Session)
        requires
            old(db).wf(),
            old(db).next_session_id < i32::MAX,
            !has_active_session(old(db).sessions@, user_id, user_agent@),
        ensures
            final(db).wf(),
            final(db).users@ == old(db).users@,
            final(db).next_user_id == old(db).next_user_id,
            final(db).next_session_id == old(db).next_session_id + 1,
            final(db).sessions@.len() == old(db).sessions@.len() + 1,
            final(db).sessions@.drop_last() == old(db).sessions@,
            r == final(db).sessions@.last(),
            r.id == old(db).next_session_id,
            r.user_id == user_id,
            r.useragent@ == user_agent@,
            r.jwt == jwt,
            r.refresh_token == refresh_token,
            r.is_active == true,
            r.last_activity == now,
    {
        let session = SessionCreate {
            user_id,
            useragent: user_agent.to_owned(),
            jwt,
            refresh_token,
            last_activity: now,
        };
        let r = SessionRepository::add(db, session);
        proof {
            assert(final(db).sessions@.drop_last() =~= old(db).sessions@);
        }
        r
    }

    /// Creates a session for the user on this device: issues a fresh
    /// access token and refresh token and persists a new active row.
    pub fn create(db: &mut AuthDb, user: &User, user_agent: &str, now: u64, secret: &str) -> (r:
        Result<Session, AuthError>)
        requires
            old(db).wf(),
            time_fits(now),
            old(db).next_session_id < i32::MAX,
            !has_active_session(old(db).sessions@, user.id, user_agent@),
        ensures
            final(db).wf(),
            final(db).users@ == old(db).users@,
            final(db).next_user_id == old(db).next_user_id,
            r matches Ok(s) ==> {
                &&& final(db).next_session_id == old(db).next_session_id + 1
                &&& final(db).sessions@.len() == old(db).sessions@.len() + 1
                &&& final(db).sessions@.drop_last() == old(db).sessions@
                &&& s == final(db).sessions@.last()
                &&& fresh_session_for(
                    s,
                    user.id,
                    user_agent@,
                    now,
                    secret@,
                    old(db).next_session_id,
                )
            },
            r is Ok,
    {
        let jwt = JWTService::generate(secret, user.id, now)?;
        let refresh_token = JWTService::generate_refresh(secret, user.id, now)?;
        let s = Self::create_with_tokens(db, user.id, user_agent, now, jwt, refresh_token);
        Ok(s)
    }

    /// Replaces the access token of the session with this id.
    pub fn update(db: &mut AuthDb, session_id: i32, jwt: String) -> (r: Result<(), AuthError>)
        requires
            old(db).wf(),
        ensures
            final(db).wf(),
            final(db).users@ == old(db).users@,
            final(db).next_user_id == old(db).next_user_id,
            final(db).next_session_id == old(db).next_session_id,
            r is Ok,
            !(exists|i: int|
                0 <= i < old(db).sessions@.len() && #[trigger] old(db).sessions@[i].id
                    == session_id) ==> final(db).sessions@ == old(db).sessions@,
            (exists|i: int|
                0 <= i < old(db).sessions@.len() && #[trigger] old(db).sessions@[i].id
                    == session_id) ==> exists|i: int|
                {
                    &&& 0 <= i < old(db).sessions@.len()
                    &&& #[trigger] old(db).sessions@[i].id == session_id
                    &&& jwt_updated(old(db).sessions@[i], final(db).sessions@[i], jwt)
                    &&& final(db).sessions@ =~= old(db).sessions@.update(
                        i,
                        final(db).sessions@[i],
                    )
                },
    {
        let count = SessionRepository::update_jwt(db, session_id, jwt);
        proof {
            assert(count <= 1);
        }
        Ok(())
    }

    /// Looks a session up by access token; with `check_active` the row
    /// must be active and the token live at `now`.
    pub fn get_by_jwt(
        db: &AuthDb,
        jwt: String,
        check_active: bool,
        now: u64,
        secret: &str,
    ) -> (r: Result<Session, AuthError>)
        requires
            db.wf(),
        ensures
            r matches Ok(s) ==> exists|i: int|
                {
                    &&& #[trigger] jwt_match_at(db.sessions@, jwt@, i)
                    &&& db.sessions@[i] == s
                    &&& check_active ==> s.is_active && token_live(secret@, jwt@, now)
                },
            r is Ok <==> exists|i: int|
                #[trigger] jwt_match_at(db.sessions@, jwt@, i) && (check_active
                    ==> db.sessions@[i].is_active && token_live(secret@, jwt@, now)),
            r is Err ==> r == Err::<Session, AuthError>(AuthError::NotFound),
    {
        let session = match SessionRepository::find_by_jwt(db, &jwt) {
            Ok(s) => s,
            Err(_) => {
                proof {
                    assert forall|i: int| !jwt_match_at(db.sessions@, jwt@, i) by {
                        if 0 <= i < db.sessions@.len() {
                            assert(db.sessions@[i].jwt@ != jwt@);
                        }
                    }
                }
                return Err(AuthError::NotFound);
            },
        };
        let ghost i = choose|i: int|
            jwt_match_at(db.sessions@, jwt@, i) && db.sessions@[i] == session;
        proof {
            assert forall|i2: int| jwt_match_at(db.sessions@, jwt@, i2) implies i2 == i by {
                if i2 < i {
                    assert(db.sessions@[i2].jwt@ == jwt@);
                }
                if i < i2 {
                    assert(db.sessions@[i].jwt@ == jwt@);
                }
            }
        }
        if check_active {
            if !session.is_active {
                return Err(AuthError::NotFound);
            }
            if JWTService::is_active(secret, jwt.as_str(), now).is_err() {
                return Err(AuthError::NotFound);
            }
        }
        Ok(session)
    }

    /// Looks a session up by refresh token; with `check_active` the row
    /// must be active and the token live at `now`.
    pub fn get_by_refresh(
        db: &AuthDb,
        refresh: String,
        check_active: bool,
        now: u64,
        secret: &str,
    ) -> (r: Result<Session, AuthError>)
        requires
            db.wf(),
        ensures
            r matches Ok(s) ==> exists|i: int|
                {
                    &&& #[trigger] refresh_match_at(db.sessions@, refresh@, i)
                    &&& db.sessions@[i] == s
                    &&& check_active ==> s.is_active && token_live(secret@, refresh@, now)
                },
            r is Ok <==> exists|i: int|
                #[trigger] refresh_match_at(db.sessions@, refresh@, i) && (check_active
                    ==> db.sessions@[i].is_active && token_live(secret@, refresh@, now)),
            r is Err ==> r == Err::<Session, AuthError>(AuthError::NotFound),
    {
        let session = match SessionRepository::find_by_refresh(db, &refresh) {
            Ok(s) => s,
            Err(_) => {
                proof {
                    assert forall|i: int| !refresh_match_at(db.sessions@, refresh@, i) by {
                        if 0 <= i < db.sessions@.len() {
                            assert(db.sessions@[i].refresh_token@ != refresh@);
                        }
                    }
                }
                return Err(AuthError::NotFound);
            },
        };
        let ghost i = choose|i: int|
            refresh_match_at(db.sessions@, refresh@, i) && db.sessions@[i] == session;
        proof {
            assert forall|i2: int| refresh_match_at(db.sessions@, refresh@, i2) implies i2 == i by {
                if i2 < i {
                    assert(db.sessions@[i2].refresh_token@ == refresh@);
                }
                if i < i2 {
                    assert(db.sessions@[i].refresh_token@ == refresh@);
                }
            }
        }
        if check_active {
            if !session.is_active {
                return Err(AuthError::NotFound);
            }
            if JWTService::is_active(secret, refresh.as_str(), now).is_err() {
                return Err(AuthError::NotFound);
            }
        }
        Ok(session)
    }

    /// Logically deletes the session with this id.
    pub fn delete(db: &mut AuthDb, id: i32) -> (r: Result<(), AuthError>)
        requires
            old(db).wf(),
        ensures
            final(db).wf(),
            final(db).users@ == old(db).users@,
            final(db).next_user_id == old(db).next_user_id,
            final(db).next_session_id == old(db).next_session_id,
            r is Ok,
            !(exists|i: int|
                0 <= i < old(db).sessions@.len() && #[trigger] old(db).sessions@[i].id == id)
                ==> final(db).sessions@ == old(db).sessions@,
            (exists|i: int|
                0 <= i < old(db).sessions@.len() && #[trigger] old(db).sessions@[i].id == id)
                ==> exists|i: int|
                {
                    &&& 0 <= i < old(db).sessions@.len()
                    &&& #[trigger] old(db).sessions@[i].id == id
                    &&& deactivated(old(db).sessions@[i], final(db).sessions@[i])
                    &&& final(db).sessions@ =~= old(db).sessions@.update(
                        i,
                        final(db).sessions@[i],
                    )
                },
    {
        let count = SessionRepository::delete(db, id);
        proof {
            assert(count <= 1);
        }
        Ok(())
    }

    /// Obtains the session for this user and device at `now`: reuses,
    /// rotates or replaces per the transition in [`obtained_session`].
    pub fn get(db: &mut AuthDb, user: &User, user_agent: &str, now: u64, secret: &str) -> (r:
        Result<Session, AuthError>)
        requires
            old(db).wf(),
            time_fits(now),
            old(db).next_session_id < i32::MAX,
        ensures
            final(db).wf(),
            final(db).users@ == old(db).users@,
            final(db).next_user_id == old(db).next_user_id,
            r matches Ok(s) ==> obtained_session(
                old(db).sessions@,
                old(db).next_session_id,
                final(db).sessions@,
                final(db).next_session_id,
                s,
                user.id,
                user_agent@,
                now,
                secret@,
            ),
            r is Ok,
    {
        let ghost pre = old(db).sessions@;
        let found = SessionRepository::get(db, user.id, user_agent);
        match found {
            Err(_) => {
                let created = Self::create(db, user, user_agent, now, secret)?;
                proof {
                    assert(obtained_session(
                        pre,
                        old(db).next_session_id,
                        db.sessions@,
                        db.next_session_id,
                        created,
                        user.id,
                        user_agent@,
                        now,
                        secret@,
                    ));
                }
                Ok(created)
            },
            Ok(session) => {
                let ghost i = choose|i: int| 0 <= i < pre.len() && pre[i] == session;
                proof {
                    assert(is_active_match(pre[i], user.id, user_agent@));
                    lemma_unique_active(pre, user.id, user_agent@, i);
                }
                if JWTService::is_active(secret, session.refresh_token.as_str(), now).is_err() {
                    // Unrecoverable: deactivate and start over.
                    let jwt = JWTService::generate(secret, user.id, now)?;
                    let refresh_token = JWTService::generate_refresh(secret, user.id, now)?;
                    let _ = SessionRepository::delete(db, session.id);
                    let ghost mid = db.sessions@;
                    proof {
                        let j = choose|j: int|
                            0 <= j < pre.len() && #[trigger] pre[j].id == session.id
                                && deactivated(pre[j], mid[j]) && mid =~= pre.update(j, mid[j]);
                        assert(j == i);
                        assert(forall|k: int|
                            0 <= k < mid.len() && k != i ==> mid[k] == pre[k]);
                        assert forall|k: int|
                            0 <= k < mid.len() implies !is_active_match(
                            #[trigger] mid[k],
                            user.id,
                            user_agent@,
                        ) by {
                            if k != i && is_active_match(mid[k], user.id, user_agent@) {
                                lemma_unique_active(pre, user.id, user_agent@, k);
                            }
                        }
                        assert(!has_active_session(mid, user.id, user_agent@));
                    }
                    let created = Self::create_with_tokens(
                        db,
                        user.id,
                        user_agent,
                        now,
                        jwt,
                        refresh_token,
                    );
                    proof {
                        assert(db.sessions@.drop_last() =~= mid);
                        assert(mid =~= pre.update(i, mid[i]));
                        assert(obtained_session(
                            pre,
                            old(db).next_session_id,
                            db.sessions@,
                            db.next_session_id,
                            created,
                            user.id,
                            user_agent@,
                            now,
                            secret@,
                        ));
                    }
                    Ok(created)
                } else {
                    if JWTService::is_active(secret, session.jwt.as_str(), now).is_err() {
                        // Routine: rotate only the access token.
                        let new_jwt = JWTService::generate(secret, user.id, now)?;
                        let rotated = Session {
                            id: session.id,
                            user_id: session.user_id,
                            useragent: session.useragent.clone(),
                            jwt: new_jwt.clone(),
                            refresh_token: session.refresh_token.clone(),
                            is_active: session.is_active,
                            last_activity: session.last_activity,
                        };
                        let _ = SessionRepository::update_jwt(db, session.id, new_jwt);
                        proof {
                            let j = choose|j: int|
                                0 <= j < pre.len() && #[trigger] pre[j].id == session.id
                                    && jwt_updated(pre[j], db.sessions@[j], rotated.jwt)
                                    && db.sessions@ =~= pre.update(j, db.sessions@[j]);
                            assert(j == i);
                            assert(rotated =~= db.sessions@[i]);
                            assert(rotated_session(pre[i], rotated, now, secret@));
                            assert(db.sessions@ =~= pre.update(i, rotated));
                            assert(obtained_session(
                                pre,
                                old(db).next_session_id,
                                db.sessions@,
                                db.next_session_id,
                                rotated,
                                user.id,
                                user_agent@,
                                now,
                                secret@,
                            ));
                        }
                        Ok(rotated)
                    } else {
                        proof {
                            assert(obtained_session(
                                pre,
                                old(db).next_session_id,
                                db.sessions@,
                                db.next_session_id,
                                session,
                                user.id,
                                user_agent@,
                                now,
                                secret@,
                            ));
                        }
                        Ok(session)
                    }
                }
            },
        }
    }
}

/// After a successful obtain, the returned session is the one active
/// match for the pair in the new table, both its tokens are live at
/// `now`, and the table's invariants still hold.
pub proof fn lemma_obtain_result_live(
    pre: Seq<Session>,
    pre_next: i32,
    post: Seq<Session>,
    post_next: i32,
    r: Session,
    user_id: i32,
    ua: Seq<char>,
    now: u64,
    secret: Seq<char>,
)
    requires
        0 < pre_next,
        session_rows_ok(pre, pre_next),
        one_active_per_device(pre),
        time_fits(now),
        obtained_session(pre, pre_next, post, post_next, r, user_id, ua, now, secret),
    ensures
        one_active_per_device(post),
        session_rows_ok(post, post_next),
        has_active_session(post, user_id, ua),
        post[active_session_index(post, user_id, ua)] == r,
        is_active_match(r, user_id, ua),
        token_live(secret, r.refresh_token@, now),
        token_live(secret, r.jwt@, now),
{
    if !has_active_session(pre, user_id, ua) {
        assert(post.drop_last() == pre);
        assert(forall|k: int| 0 <= k < pre.len() ==> post[k] == pre[k]);
        assert forall|k: int|
            0 <= k < pre.len() implies !is_active_match(#[trigger] post[k], user_id, ua) by {
            if is_active_match(pre[k], user_id, ua) {
                assert(has_active_session(pre, user_id, ua));
            }
        }
        assert(one_active_per_device(post));
        assert(session_rows_ok(post, post_next));
        lemma_unique_active(post, user_id, ua, post.len() - 1);
    } else {
        let i = active_session_index(pre, user_id, ua);
        assert(0 <= i < pre.len() && is_active_match(pre[i], user_id, ua));
        let s0 = pre[i];
        if !token_live(secret, s0.refresh_token@, now) {
            let mid = pre.update(i, post[i]);
            assert(post.drop_last() == mid);
            assert(forall|k: int| 0 <= k < mid.len() ==> post[k] == mid[k]);
            assert forall|k: int|
                0 <= k < mid.len() implies !is_active_match(#[trigger] mid[k], user_id, ua) by {
                if k != i && is_active_match(mid[k], user_id, ua) {
                    assert(mid[k] == pre[k]);
                    lemma_unique_active(pre, user_id, ua, k);
                }
            }
            assert(one_active_per_device(post));
            assert(session_rows_ok(post, post_next));
            lemma_unique_active(post, user_id, ua, post.len() - 1);
        } else if !token_live(secret, s0.jwt@, now) {
            assert(forall|k: int| 0 <= k < post.len() && k != i ==> post[k] == pre[k]);
            assert(one_active_per_device(post));
            assert(session_rows_ok(post, post_next));
            lemma_unique_active(post, user_id, ua, i);
        } else {
            lemma_unique_active(post, user_id, ua, i);
        }
    }
}

/// Law: obtaining a session twice in immediate succession for the same
/// user and device returns the same session and leaves the table as it
/// was: no duplicate row is created.
pub proof fn lemma_obtain_idempotent(
    pre: Seq<Session>,
    pre_next: i32,
    mid: Seq<Session>,
    mid_next: i32,
    s1: Session,
    post: Seq<Session>,
    post_next: i32,
    s2: Session,
    user_id: i32,
    ua: Seq<char>,
    now: u64,
    secret: Seq<char>,
)
    requires
        0 < pre_next,
        session_rows_ok(pre, pre_next),
        one_active_per_device(pre),
        time_fits(now),
        obtained_session(pre, pre_next, mid, mid_next, s1, user_id, ua, now, secret),
        obtained_session(mid, mid_next, post, post_next, s2, user_id, ua, now, secret),
    ensures
        s2 == s1,
        post == mid,
        post_next == mid_next,
{
    lemma_obtain_result_live(pre, pre_next, mid, mid_next, s1, user_id, ua, now, secret);
}

/// Law: if the stored refresh token of the pair's session is dead, the
/// obtained session is a brand-new row under a fresh id, and the old
/// row is marked inactive (its other fields untouched).
pub proof fn lemma_obtain_replaces_dead_session(
    pre: Seq<Session>,
    pre_next: i32,
    post: Seq<Session>,
    post_next: i32,
    r: Session,
    user_id: i32,
    ua: Seq<char>,
    now: u64,
    secret: Seq<char>,
)
    requires
        session_rows_ok(pre, pre_next),
        one_active_per_device(pre),
        time_fits(now),
        has_active_session(pre, user_id, ua),
        !token_live(
            secret,
            pre[active_session_index(pre, user_id, ua)].refresh_token@,
            now,
        ),
        obtained_session(pre, pre_next, post, post_next, r, user_id, ua, now, secret),
    ensures
        r.id == pre_next,
        r.id != pre[active_session_index(pre, user_id, ua)].id,
        r.is_active,
        deactivated(
            pre[active_session_index(pre, user_id, ua)],
            post[active_session_index(pre, user_id, ua)],
        ),
        !post[active_session_index(pre, user_id, ua)].is_active,
{
    let i = active_session_index(pre, user_id, ua);
    assert(0 <= i < pre.len() && is_active_match(pre[i], user_id, ua));
}

/// Law: if the session's access token is dead but its refresh token is
/// live, the obtained session keeps its id and refresh token, and only
/// the access token has changed.
pub proof fn lemma_obtain_rotates_access_token(
    pre: Seq<Session>,
    pre_next: i32,
    post: Seq<Session>,
    post_next: i32,
    r: Session,
    user_id: i32,
    ua: Seq<char>,
    now: u64,
    secret: Seq<char>,
)
    requires
        session_rows_ok(pre, pre_next),
        one_active_per_device(pre),
        time_fits(now),
        has_active_session(pre, user_id, ua),
        token_live(secret, pre[active_session_index(pre, user_id, ua)].refresh_token@, now),
        !token_live(secret, pre[active_session_index(pre, user_id, ua)].jwt@, now),
        obtained_session(pre, pre_next, post, post_next, r, user_id, ua, now, secret),
    ensures
        r.id == pre[active_session_index(pre, user_id, ua)].id,
        r.refresh_token == pre[active_session_index(pre, user_id, ua)].refresh_token,
        r.jwt@ != pre[active_session_index(pre, user_id, ua)].jwt@,
        post.len() == pre.len(),
{
    let i = active_session_index(pre, user_id, ua);
    assert(0 <= i < pre.len() && is_active_match(pre[i], user_id, ua));
    let s0 = pre[i];
    if r.jwt@ == s0.jwt@ {
        assert(jwt_claims_of(secret, s0.jwt@) == Some(
            Claims {
                sub: s0.user_id as i64,
                exp: (now + ACCESS_TOKEN_SECONDS) as u64,
                refresh: false,
            },
        ));
        assert(token_live(secret, s0.jwt@, now));
        assert(false);
    }
}

} // verus!
