use auth_engine::errors::{AuthError, Field, ValidationRule};
use auth_engine::hasher::HasherService;
use auth_engine::models::{UserAdd, UserRegister};
use auth_engine::redis::RedisService;
use auth_engine::register::RegisterService;
use auth_engine::repository::{AuthDb, AuthRepository};

const T0: u64 = 1_700_000_000;

fn request(name: &str, password: &str, email: &str) -> UserRegister {
    UserRegister {
        username: name.to_string(),
        password: password.to_string(),
        email: email.to_string(),
    }
}

#[test]
fn confirm_keys_are_namespaced() {
    let (key, code) = RegisterService::generate_redis_confirm_key(Some("1234".to_string()));
    assert_eq!(code, "1234");
    assert_eq!(key, "register:1234");
    let (key, code) = RegisterService::generate_redis_confirm_key(None);
    assert_eq!(code.len(), 10);
    assert!(code.chars().all(|c| c.is_ascii_digit()));
    assert_eq!(key, format!("register:{code}"));
}

#[test]
fn registration_validates_before_staging() {
    let db = AuthDb::new();
    let r = RegisterService::register(&db, request("ab", "longenough1", "a@b.c"), false);
    assert_eq!(
        r.err(),
        Some(AuthError::Validation(Field::Username, ValidationRule::Length))
    );
    let r = RegisterService::register(&db, request("alice", "short", "a@b.c"), false);
    assert_eq!(
        r.err(),
        Some(AuthError::Validation(Field::Password, ValidationRule::Length))
    );
}

#[test]
fn taken_userdata_is_a_conflict() {
    let mut db = AuthDb::new();
    let row = UserAdd {
        user_id: Some(1),
        username: "alice".to_string(),
        password: "h".to_string(),
        salt: "s".to_string(),
    };
    AuthRepository::add(&mut db, &row, 1);
    assert!(matches!(
        RegisterService::register(&db, request("alice", "longenough1", "a@b.c"), false),
        Err(AuthError::Conflict)
    ));
    // A free username with the email taken in the directory also
    // conflicts.
    assert!(matches!(
        RegisterService::register(&db, request("bob_2", "longenough1", "a@b.c"), true),
        Err(AuthError::Conflict)
    ));
}

#[test]
fn staging_prepares_a_salted_record_and_the_mail() {
    let db = AuthDb::new();
    let ticket = RegisterService::register(&db, request("alice", "longenough1", "a@b.c"), false)
        .unwrap();
    assert_eq!(ticket.pending.username, "alice");
    assert_eq!(ticket.pending.email, "a@b.c");
    assert_eq!(ticket.pending.salt.len(), 16);
    assert_eq!(
        ticket.pending.password,
        HasherService::sha256(format!("longenough1{}", ticket.pending.salt))
    );
    assert_eq!(ticket.key, format!("register:{}", ticket.code));
    assert_eq!(ticket.mail.username, "alice");
    assert_eq!(
        ticket.mail.url,
        format!("https://riverfallmc.ru/api/auth/confirm?id={}", ticket.code)
    );
}

#[test]
fn unknown_code_is_not_on_the_list_and_creates_nothing() {
    let db = AuthDb::new();
    let redis = RedisService::new();
    assert!(matches!(
        RegisterService::confirm(&redis, "1234567890".to_string(), T0),
        Err(AuthError::NotFound)
    ));
    assert!(db.users.is_empty());
}

#[test]
fn confirmation_creates_exactly_one_row_and_consumes_the_code() {
    let mut db = AuthDb::new();
    let mut redis = RedisService::new();
    let ticket = RegisterService::register(&db, request("alice", "longenough1", "a@b.c"), false)
        .unwrap();
    RegisterService::register_commit(&mut redis, &ticket, T0).unwrap();

    let staged = RegisterService::confirm(&redis, ticket.code.clone(), T0 + 60).unwrap();
    assert_eq!(staged.username, "alice");
    // The directory assigned id 77; one durable row appears.
    RegisterService::confirm_commit(&mut redis, &mut db, ticket.code.clone(), &staged, 77, T0 + 60)
        .unwrap();
    assert_eq!(db.users.len(), 1);
    assert_eq!(db.users[0].user_id, 77);
    assert_eq!(db.users[0].username, "alice");
    assert_eq!(db.users[0].password, ticket.pending.password);
    assert_eq!(db.users[0].totp_secret, None);

    // A second confirmation with the same code is "not found" and
    // creates no additional row.
    assert!(matches!(
        RegisterService::confirm(&redis, ticket.code, T0 + 61),
        Err(AuthError::NotFound)
    ));
    assert_eq!(db.users.len(), 1);
}

#[test]
fn staged_registration_lapses_after_its_window() {
    let db = AuthDb::new();
    let mut redis = RedisService::new();
    let ticket = RegisterService::register(&db, request("alice", "longenough1", "a@b.c"), false)
        .unwrap();
    RegisterService::register_commit(&mut redis, &ticket, T0).unwrap();
    assert!(RegisterService::confirm(&redis, ticket.code.clone(), T0 + 599).is_ok());
    assert!(matches!(
        RegisterService::confirm(&redis, ticket.code, T0 + 600),
        Err(AuthError::NotFound)
    ));
}
