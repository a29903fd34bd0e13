use auth_engine::errors::AuthError;
use auth_engine::jwt::JWTService;
use auth_engine::models::User;
use auth_engine::repository::AuthDb;
use auth_engine::session::SessionService;

const SECRET: &str = "session-secret";
const T0: u64 = 1_700_000_000;

fn some_user(id: i32) -> User {
    User {
        id,
        user_id: id,
        username: format!("user{id}"),
        password: "irrelevant".to_string(),
        salt: "irrelevant".to_string(),
        totp_secret: None,
    }
}

#[test]
fn first_login_creates_an_active_session() {
    let mut db = AuthDb::new();
    let user = some_user(1);
    let s = SessionService::get(&mut db, &user, "firefox", T0, SECRET).unwrap();
    assert_eq!(s.id, 1);
    assert_eq!(s.user_id, 1);
    assert_eq!(s.useragent, "firefox");
    assert!(s.is_active);
    assert_eq!(s.last_activity, T0);
    assert_eq!(db.sessions.len(), 1);
    // Both tokens decode to this user with the documented windows.
    let access = JWTService::decode_token(SECRET, &s.jwt).unwrap();
    assert_eq!((access.sub, access.exp, access.refresh), (1, T0 + 3600, false));
    let refresh = JWTService::decode_token(SECRET, &s.refresh_token).unwrap();
    assert_eq!((refresh.sub, refresh.exp, refresh.refresh), (1, T0 + 604800, true));
}

#[test]
fn immediate_second_obtain_returns_the_same_session() {
    let mut db = AuthDb::new();
    let user = some_user(1);
    let s1 = SessionService::get(&mut db, &user, "firefox", T0, SECRET).unwrap();
    let s2 = SessionService::get(&mut db, &user, "firefox", T0, SECRET).unwrap();
    assert_eq!(s1.id, s2.id);
    assert_eq!(s1.jwt, s2.jwt);
    assert_eq!(s1.refresh_token, s2.refresh_token);
    assert_eq!(db.sessions.len(), 1); // no duplicate row
}

#[test]
fn distinct_devices_get_distinct_sessions() {
    let mut db = AuthDb::new();
    let user = some_user(1);
    let s1 = SessionService::get(&mut db, &user, "firefox", T0, SECRET).unwrap();
    let s2 = SessionService::get(&mut db, &user, "curl", T0, SECRET).unwrap();
    assert_ne!(s1.id, s2.id);
    assert_eq!(db.sessions.len(), 2);
}

#[test]
fn dead_access_token_is_rotated_in_place() {
    let mut db = AuthDb::new();
    let user = some_user(1);
    let s1 = SessionService::get(&mut db, &user, "firefox", T0, SECRET).unwrap();
    // One hour later the access token has lapsed; the refresh token is
    // far from its window's end.
    let later = T0 + 3600;
    let s2 = SessionService::get(&mut db, &user, "firefox", later, SECRET).unwrap();
    assert_eq!(s2.id, s1.id); // same session
    assert_eq!(s2.refresh_token, s1.refresh_token); // untouched
    assert_ne!(s2.jwt, s1.jwt); // rotated
    let access = JWTService::decode_token(SECRET, &s2.jwt).unwrap();
    assert_eq!(access.exp, later + 3600);
    assert_eq!(db.sessions.len(), 1);
}

#[test]
fn dead_refresh_token_replaces_the_whole_session() {
    let mut db = AuthDb::new();
    let user = some_user(1);
    let s1 = SessionService::get(&mut db, &user, "firefox", T0, SECRET).unwrap();
    // Seven days later the refresh token itself has lapsed.
    let later = T0 + 604800;
    let s2 = SessionService::get(&mut db, &user, "firefox", later, SECRET).unwrap();
    assert_ne!(s2.id, s1.id); // a brand-new session
    assert!(s2.is_active);
    assert_eq!(db.sessions.len(), 2);
    assert!(!db.sessions[0].is_active); // the old row was deactivated
    assert_eq!(db.sessions[0].id, s1.id);
}

#[test]
fn lookup_by_token_respects_the_active_check() {
    let mut db = AuthDb::new();
    let user = some_user(1);
    let s = SessionService::get(&mut db, &user, "firefox", T0, SECRET).unwrap();
    assert!(SessionService::get_by_jwt(&db, s.jwt.clone(), true, T0, SECRET).is_ok());
    // Expired access token: rejected when liveness is demanded,
    // still resolvable without the check.
    assert!(matches!(
        SessionService::get_by_jwt(&db, s.jwt.clone(), true, T0 + 3600, SECRET),
        Err(AuthError::NotFound)
    ));
    assert!(SessionService::get_by_jwt(&db, s.jwt.clone(), false, T0 + 3600, SECRET).is_ok());
    assert!(matches!(
        SessionService::get_by_jwt(&db, "nothing".to_string(), false, T0, SECRET),
        Err(AuthError::NotFound)
    ));
    assert!(SessionService::get_by_refresh(&db, s.refresh_token.clone(), true, T0, SECRET).is_ok());
}

#[test]
fn delete_flips_the_row_inactive_but_keeps_it() {
    let mut db = AuthDb::new();
    let user = some_user(1);
    let s = SessionService::get(&mut db, &user, "firefox", T0, SECRET).unwrap();
    SessionService::delete(&mut db, s.id).unwrap();
    assert_eq!(db.sessions.len(), 1);
    assert!(!db.sessions[0].is_active);
}
