use auth_engine::auth::{AuthService, LoginOutcome};
use auth_engine::errors::AuthError;
use auth_engine::hasher::HasherService;
use auth_engine::models::{UserAdd, UserLogin};
use auth_engine::redis::RedisService;
use auth_engine::repository::{AuthDb, AuthRepository, SessionRepository};
use auth_engine::tfa::TFAService;

const SECRET: &str = "auth-secret";
const T0: u64 = 1_700_000_000;

fn seed_user(db: &mut AuthDb, name: &str, password: &str) -> i32 {
    let salt = HasherService::generate_salt();
    let hash = HasherService::sha256(format!("{password}{salt}"));
    let row = UserAdd {
        user_id: Some(900),
        username: name.to_string(),
        password: hash,
        salt,
    };
    AuthRepository::add(db, &row, 900)
}

fn credentials(name: &str, password: &str) -> UserLogin {
    UserLogin { username: name.to_string(), password: password.to_string() }
}

#[test]
fn login_with_unknown_username_is_not_found() {
    let mut db = AuthDb::new();
    let mut redis = RedisService::new();
    let r = AuthService::login(
        &mut db,
        &mut redis,
        &credentials("ghost", "whatever1"),
        "ua",
        T0,
        SECRET,
    );
    assert!(matches!(r, Err(AuthError::NotFound)));
}

#[test]
fn login_with_wrong_password_is_rejected_without_detail() {
    let mut db = AuthDb::new();
    let mut redis = RedisService::new();
    seed_user(&mut db, "alice", "right_pw1");
    let r = AuthService::login(
        &mut db,
        &mut redis,
        &credentials("alice", "wrong_pw1"),
        "ua",
        T0,
        SECRET,
    );
    assert!(matches!(r, Err(AuthError::WrongCredentials)));
    assert!(db.sessions.is_empty());
}

#[test]
fn login_without_second_factor_establishes_a_session() {
    let mut db = AuthDb::new();
    let mut redis = RedisService::new();
    let id = seed_user(&mut db, "alice", "right_pw1");
    let r = AuthService::login(
        &mut db,
        &mut redis,
        &credentials("alice", "right_pw1"),
        "firefox",
        T0,
        SECRET,
    )
    .unwrap();
    match r {
        LoginOutcome::Established(s) => {
            assert_eq!(s.user_id, id);
            assert!(s.is_active);
        },
        LoginOutcome::TwoFactorRequired => panic!("no second factor is enrolled"),
    }
}

#[test]
fn login_with_second_factor_stages_a_challenge_and_no_session() {
    let mut db = AuthDb::new();
    let mut redis = RedisService::new();
    let id = seed_user(&mut db, "alice", "right_pw1");
    AuthRepository::update_totp(&mut db, id, HasherService::generate_2fa_secret());
    let r = AuthService::login(
        &mut db,
        &mut redis,
        &credentials("alice", "right_pw1"),
        "firefox",
        T0,
        SECRET,
    )
    .unwrap();
    assert!(matches!(r, LoginOutcome::TwoFactorRequired));
    assert!(db.sessions.is_empty());
    let key = TFAService::generate_redis_2fa_key("alice".to_string());
    assert!(redis.get(&key, T0).is_some());
    assert!(redis.get(&key, T0 + 300).is_none()); // five-minute window
}

#[test]
fn token_owner_is_resolved_from_a_live_session() {
    let mut db = AuthDb::new();
    let mut redis = RedisService::new();
    let id = seed_user(&mut db, "alice", "right_pw1");
    let r = AuthService::login(
        &mut db,
        &mut redis,
        &credentials("alice", "right_pw1"),
        "firefox",
        T0,
        SECRET,
    )
    .unwrap();
    let session = match r {
        LoginOutcome::Established(s) => s,
        _ => panic!("expected a session"),
    };
    let owner = AuthService::get_owner(&db, session.jwt.clone(), T0, SECRET).unwrap();
    assert_eq!(owner.id, id);
    assert_eq!(owner.username, "alice");
    // The same token after its expiry no longer resolves.
    assert!(AuthService::get_owner(&db, session.jwt, T0 + 3600, SECRET).is_err());
}

#[test]
fn refresh_renews_only_the_access_token() {
    let mut db = AuthDb::new();
    let mut redis = RedisService::new();
    seed_user(&mut db, "alice", "right_pw1");
    let session = match AuthService::login(
        &mut db,
        &mut redis,
        &credentials("alice", "right_pw1"),
        "firefox",
        T0,
        SECRET,
    )
    .unwrap()
    {
        LoginOutcome::Established(s) => s,
        _ => panic!("expected a session"),
    };
    let later = T0 + 7200;
    let renewed = AuthService::refresh(&mut db, session.refresh_token.clone(), later, SECRET)
        .unwrap();
    assert_eq!(renewed.id, session.id);
    assert_eq!(renewed.refresh_token, session.refresh_token);
    assert_ne!(renewed.jwt, session.jwt);
    // An unknown refresh token is not found.
    assert!(matches!(
        AuthService::refresh(&mut db, "bogus".to_string(), later, SECRET),
        Err(AuthError::NotFound)
    ));
    // A lapsed refresh token no longer renews.
    assert!(matches!(
        AuthService::refresh(&mut db, session.refresh_token, T0 + 604800, SECRET),
        Err(AuthError::NotFound)
    ));
}

#[test]
fn inactive_sessions_do_not_refresh() {
    let mut db = AuthDb::new();
    let mut redis = RedisService::new();
    seed_user(&mut db, "alice", "right_pw1");
    let session = match AuthService::login(
        &mut db,
        &mut redis,
        &credentials("alice", "right_pw1"),
        "firefox",
        T0,
        SECRET,
    )
    .unwrap()
    {
        LoginOutcome::Established(s) => s,
        _ => panic!("expected a session"),
    };
    SessionRepository::delete(&mut db, session.id);
    assert!(matches!(
        AuthService::refresh(&mut db, session.refresh_token, T0 + 10, SECRET),
        Err(AuthError::NotFound)
    ));
}
