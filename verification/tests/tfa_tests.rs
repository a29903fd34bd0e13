use auth_engine::errors::AuthError;
use auth_engine::hasher::HasherService;
use auth_engine::jwt::JWTService;
use auth_engine::models::UserAdd;
use auth_engine::redis::RedisService;
use auth_engine::repository::{AuthDb, AuthRepository};
use auth_engine::tfa::TFAService;

const SECRET: &str = "tfa-secret";
const T0: u64 = 1_700_000_000;

fn seed_user(db: &mut AuthDb, name: &str) -> i32 {
    let salt = HasherService::generate_salt();
    let hash = HasherService::sha256(format!("pw123456{salt}"));
    let row = UserAdd {
        user_id: Some(900),
        username: name.to_string(),
        password: hash,
        salt,
    };
    AuthRepository::add(db, &row, 900)
}

#[test]
fn enrollment_derives_a_secret_and_payload() {
    let mut db = AuthDb::new();
    let id = seed_user(&mut db, "alice");
    let token = JWTService::generate(SECRET, id, T0).unwrap();
    let body = TFAService::add(&db, token, T0, SECRET).unwrap();
    assert_eq!(body.secret.len(), 32);
    assert!(body.qr.starts_with("otpauth://totp/"));
    assert!(body.qr.contains("serenitymc.ru"));
    assert!(body.qr.contains("alice"));
}

#[test]
fn enrollment_fails_closed_when_already_linked() {
    let mut db = AuthDb::new();
    let id = seed_user(&mut db, "alice");
    AuthRepository::update_totp(&mut db, id, HasherService::generate_2fa_secret());
    let token = JWTService::generate(SECRET, id, T0).unwrap();
    assert!(matches!(
        TFAService::add(&db, token, T0, SECRET),
        Err(AuthError::Conflict)
    ));
}

#[test]
fn enrollment_requires_a_live_token() {
    let mut db = AuthDb::new();
    let id = seed_user(&mut db, "alice");
    let token = JWTService::generate(SECRET, id, T0).unwrap();
    assert!(matches!(
        TFAService::add(&db, token, T0 + 3600, SECRET),
        Err(AuthError::WrongCredentials)
    ));
}

#[test]
fn linking_requires_a_code_proving_the_secret() {
    let mut db = AuthDb::new();
    let id = seed_user(&mut db, "alice");
    let token = JWTService::generate(SECRET, id, T0).unwrap();
    let secret = HasherService::generate_2fa_secret();
    // A wrong code changes nothing.
    assert!(matches!(
        TFAService::link(
            &mut db,
            token.clone(),
            "000000".to_string(),
            secret.clone(),
            T0,
            SECRET,
        ),
        Err(AuthError::WrongCredentials)
    ));
    assert_eq!(db.users[0].totp_secret, None);
    // The genuine code links the secret.
    let code = TFAService::code_at(&secret, T0).unwrap();
    TFAService::link(&mut db, token, code, secret.clone(), T0, SECRET).unwrap();
    assert_eq!(db.users[0].totp_secret.as_deref(), Some(secret.as_str()));
}

#[test]
fn linking_fails_closed_when_already_enrolled() {
    let mut db = AuthDb::new();
    let id = seed_user(&mut db, "alice");
    let enrolled = HasherService::generate_2fa_secret();
    AuthRepository::update_totp(&mut db, id, enrolled.clone());
    let token = JWTService::generate(SECRET, id, T0).unwrap();
    // Even a genuine code for a new secret must not overwrite the
    // enrolled one through this path.
    let replacement = HasherService::generate_2fa_secret();
    let code = TFAService::code_at(&replacement, T0).unwrap();
    assert!(matches!(
        TFAService::link(&mut db, token, code, replacement, T0, SECRET),
        Err(AuthError::Conflict)
    ));
    assert_eq!(db.users[0].totp_secret.as_deref(), Some(enrolled.as_str()));
}

#[test]
fn codes_within_one_step_of_skew_are_accepted() {
    let mut db = AuthDb::new();
    let id = seed_user(&mut db, "alice");
    let token = JWTService::generate(SECRET, id, T0).unwrap();
    let secret = HasherService::generate_2fa_secret();
    // The code of the previous 30-second step still passes.
    let code = TFAService::code_at(&secret, T0 - 30).unwrap();
    assert!(TFAService::link(&mut db, token, code, secret, T0, SECRET).is_ok());
}

#[test]
fn challenge_confirm_consumes_exactly_once() {
    let mut db = AuthDb::new();
    let mut redis = RedisService::new();
    let id = seed_user(&mut db, "alice");
    let secret = HasherService::generate_2fa_secret();
    AuthRepository::update_totp(&mut db, id, secret.clone());
    TFAService::add_login_attempt(&mut redis, "alice".to_string(), T0).unwrap();

    let code = TFAService::code_at(&secret, T0).unwrap();
    let session = TFAService::login(
        &mut db,
        &mut redis,
        "alice".to_string(),
        code.clone(),
        "firefox".to_string(),
        T0,
        SECRET,
    )
    .unwrap();
    assert_eq!(session.user_id, id);
    // The second attempt with the very same code reports "not found",
    // never "wrong code": the challenge was consumed.
    assert!(matches!(
        TFAService::login(
            &mut db,
            &mut redis,
            "alice".to_string(),
            code,
            "firefox".to_string(),
            T0,
            SECRET,
        ),
        Err(AuthError::NotFound)
    ));
}

#[test]
fn wrong_code_preserves_the_challenge_for_a_retry() {
    let mut db = AuthDb::new();
    let mut redis = RedisService::new();
    let id = seed_user(&mut db, "alice");
    let secret = HasherService::generate_2fa_secret();
    AuthRepository::update_totp(&mut db, id, secret.clone());
    TFAService::add_login_attempt(&mut redis, "alice".to_string(), T0).unwrap();

    assert!(matches!(
        TFAService::login(
            &mut db,
            &mut redis,
            "alice".to_string(),
            "000000".to_string(),
            "firefox".to_string(),
            T0,
            SECRET,
        ),
        Err(AuthError::WrongCredentials)
    ));
    // The challenge is still there: the genuine code now succeeds.
    let code = TFAService::code_at(&secret, T0).unwrap();
    assert!(TFAService::login(
        &mut db,
        &mut redis,
        "alice".to_string(),
        code,
        "firefox".to_string(),
        T0,
        SECRET,
    )
    .is_ok());
}

#[test]
fn lapsed_challenge_behaves_as_never_created() {
    let mut db = AuthDb::new();
    let mut redis = RedisService::new();
    let id = seed_user(&mut db, "alice");
    let secret = HasherService::generate_2fa_secret();
    AuthRepository::update_totp(&mut db, id, secret.clone());
    TFAService::add_login_attempt(&mut redis, "alice".to_string(), T0).unwrap();

    // Past the five-minute window, even the genuine code reads "no
    // such pending request" — exactly as with no challenge at all.
    let late = T0 + 300;
    let code = TFAService::code_at(&secret, late).unwrap();
    assert!(matches!(
        TFAService::login(
            &mut db,
            &mut redis,
            "alice".to_string(),
            code.clone(),
            "firefox".to_string(),
            late,
            SECRET,
        ),
        Err(AuthError::NotFound)
    ));
    let mut fresh = RedisService::new();
    assert!(matches!(
        TFAService::login(
            &mut db,
            &mut fresh,
            "alice".to_string(),
            code,
            "firefox".to_string(),
            late,
            SECRET,
        ),
        Err(AuthError::NotFound)
    ));
}

#[test]
fn secrets_below_the_rfc_floor_are_refused() {
    // The TOTP engine demands at least 128 bits of secret; the failure
    // surfaces as a collaborator error, never a panic.
    assert!(matches!(
        TFAService::code_at("short", T0),
        Err(AuthError::Upstream)
    ));
    assert!(matches!(
        TFAService::generate_2fa("alice".to_string(), Some("short".to_string())),
        Err(AuthError::Upstream)
    ));
}
