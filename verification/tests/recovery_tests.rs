use auth_engine::errors::{AuthError, Field, ValidationRule};
use auth_engine::hasher::HasherService;
use auth_engine::models::{UserAdd, UserInUserService};
use auth_engine::recovery::RecoveryService;
use auth_engine::redis::RedisService;
use auth_engine::repository::{AuthDb, AuthRepository};

const T0: u64 = 1_700_000_000;

fn directory_alice() -> Option<UserInUserService> {
    Some(UserInUserService {
        id: 55,
        username: "alice".to_string(),
        email: "a@b.c".to_string(),
    })
}

fn seed_alice(db: &mut AuthDb) -> i32 {
    let salt = HasherService::generate_salt();
    let hash = HasherService::sha256(format!("old_pass1{salt}"));
    let row = UserAdd {
        user_id: Some(55),
        username: "alice".to_string(),
        password: hash,
        salt,
    };
    AuthRepository::add(db, &row, 55)
}

#[test]
fn record_keys_are_namespaced() {
    assert_eq!(
        RecoveryService::get_record_key(&"1234".to_string()),
        "recovery:1234"
    );
}

#[test]
fn unknown_email_is_not_found() {
    let redis = RedisService::new();
    assert!(matches!(
        RecoveryService::recovery(&redis, "a@b.c".to_string(), None, T0),
        Err(AuthError::NotFound)
    ));
}

#[test]
fn initiation_writes_two_linked_records() {
    let redis_ro = RedisService::new();
    let ticket =
        RecoveryService::recovery(&redis_ro, "a@b.c".to_string(), directory_alice(), T0).unwrap();
    assert_eq!(ticket.email, "a@b.c");
    assert_eq!(ticket.code.len(), 10);
    assert_eq!(ticket.mail.username, "alice");
    assert_eq!(ticket.mail.code, ticket.code);

    let mut redis = RedisService::new();
    RecoveryService::recovery_commit(&mut redis, &ticket, T0).unwrap();
    assert!(RecoveryService::exist(&redis, &ticket.code, T0).is_ok());
    assert_eq!(
        RecoveryService::get_record(&redis, ticket.code.clone(), T0),
        Ok("a@b.c".to_string())
    );
    // Both lapse together after five minutes.
    assert_eq!(
        RecoveryService::exist(&redis, &ticket.code, T0 + 300),
        Err(AuthError::NotFound)
    );
}

#[test]
fn second_request_while_one_is_pending_is_rejected() {
    let mut redis = RedisService::new();
    let ticket =
        RecoveryService::recovery(&redis, "a@b.c".to_string(), directory_alice(), T0).unwrap();
    RecoveryService::recovery_commit(&mut redis, &ticket, T0).unwrap();
    assert!(matches!(
        RecoveryService::recovery(&redis, "a@b.c".to_string(), directory_alice(), T0 + 60),
        Err(AuthError::Conflict)
    ));
    // Once the window has lapsed a new request goes through again.
    assert!(
        RecoveryService::recovery(&redis, "a@b.c".to_string(), directory_alice(), T0 + 300)
            .is_ok()
    );
}

#[test]
fn confirm_demands_a_known_code_and_a_valid_password() {
    let mut redis = RedisService::new();
    assert_eq!(
        RecoveryService::confirm(&redis, "0000000000".to_string(), "new_pass1".to_string(), T0),
        Err(AuthError::NotFound)
    );
    let ticket =
        RecoveryService::recovery(&redis, "a@b.c".to_string(), directory_alice(), T0).unwrap();
    RecoveryService::recovery_commit(&mut redis, &ticket, T0).unwrap();
    // A password failing the validator's rules is a validation error.
    assert_eq!(
        RecoveryService::confirm(&redis, ticket.code.clone(), "short".to_string(), T0),
        Err(AuthError::Validation(Field::Password, ValidationRule::Length))
    );
    assert_eq!(
        RecoveryService::confirm(&redis, ticket.code.clone(), "new_pass1".to_string(), T0),
        Ok("a@b.c".to_string())
    );
}

#[test]
fn rejected_confirm_leaves_the_stored_hash_unchanged() {
    let mut db = AuthDb::new();
    let mut redis = RedisService::new();
    seed_alice(&mut db);
    let before_hash = db.users[0].password.clone();
    let before_salt = db.users[0].salt.clone();
    let ticket =
        RecoveryService::recovery(&redis, "a@b.c".to_string(), directory_alice(), T0).unwrap();
    RecoveryService::recovery_commit(&mut redis, &ticket, T0).unwrap();
    assert!(RecoveryService::confirm(&redis, ticket.code, "bad".to_string(), T0).is_err());
    assert_eq!(db.users[0].password, before_hash);
    assert_eq!(db.users[0].salt, before_salt);
}

#[test]
fn completed_recovery_installs_a_fresh_salted_hash_and_clears_records() {
    let mut db = AuthDb::new();
    let mut redis = RedisService::new();
    let row_id = seed_alice(&mut db);
    let old_hash = db.users[0].password.clone();
    let ticket =
        RecoveryService::recovery(&redis, "a@b.c".to_string(), directory_alice(), T0).unwrap();
    RecoveryService::recovery_commit(&mut redis, &ticket, T0).unwrap();

    let email =
        RecoveryService::confirm(&redis, ticket.code.clone(), "new_pass1".to_string(), T0)
            .unwrap();
    RecoveryService::confirm_commit(
        &mut db,
        &mut redis,
        ticket.code.clone(),
        email,
        row_id,
        "new_pass1".to_string(),
        T0,
    )
    .unwrap();

    let user = &db.users[0];
    assert_ne!(user.password, old_hash);
    assert_eq!(user.salt.len(), 16);
    assert_eq!(
        user.password,
        HasherService::sha256(format!("new_pass1{}", user.salt))
    );
    // Both records were deleted together: the code resolves no more,
    // and a new request for the email is no longer blocked.
    assert_eq!(
        RecoveryService::exist(&redis, &ticket.code, T0 + 1),
        Err(AuthError::NotFound)
    );
    assert!(
        RecoveryService::recovery(&redis, "a@b.c".to_string(), directory_alice(), T0 + 1).is_ok()
    );
}

#[test]
fn confirm_commit_for_an_unknown_row_is_not_found() {
    let mut db = AuthDb::new();
    let mut redis = RedisService::new();
    assert_eq!(
        RecoveryService::confirm_commit(
            &mut db,
            &mut redis,
            "1234567890".to_string(),
            "a@b.c".to_string(),
            99,
            "new_pass1".to_string(),
            T0,
        ),
        Err(AuthError::NotFound)
    );
}
