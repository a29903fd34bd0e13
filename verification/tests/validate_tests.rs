use auth_engine::errors::{AuthError, Field, ValidationRule};
use auth_engine::models::UserRegister;
use auth_engine::validate::AuthValidateService;

fn username(s: &str) -> Result<(), AuthError> {
    AuthValidateService::validate_username(s.to_string())
}

fn password(s: &str) -> Result<(), AuthError> {
    AuthValidateService::validate_password(s.to_string())
}

#[test]
fn accepts_valid_usernames() {
    assert!(username("alice").is_ok());
    assert!(username("a_b_c").is_ok());
    assert!(username("user_01").is_ok());
    assert!(username("12345").is_ok());
    assert!(username("abcdefghijklmnop").is_ok()); // 16 characters
    assert!(username("____5").is_ok()); // one alphanumeric suffices
}

#[test]
fn rejects_usernames_out_of_length_range() {
    assert_eq!(
        username("abcd"),
        Err(AuthError::Validation(Field::Username, ValidationRule::Length))
    );
    assert_eq!(
        username(""),
        Err(AuthError::Validation(Field::Username, ValidationRule::Length))
    );
    assert_eq!(
        username("abcdefghijklmnopq"), // 17 characters
        Err(AuthError::Validation(Field::Username, ValidationRule::Length))
    );
}

#[test]
fn rejects_usernames_with_foreign_characters() {
    assert_eq!(
        username("abc de"),
        Err(AuthError::Validation(Field::Username, ValidationRule::Spell))
    );
    assert_eq!(
        username("abc-def"),
        Err(AuthError::Validation(Field::Username, ValidationRule::Spell))
    );
    assert_eq!(
        username("ab:cdef"),
        Err(AuthError::Validation(Field::Username, ValidationRule::Spell))
    );
}

#[test]
fn rejects_usernames_without_an_alphanumeric() {
    assert_eq!(
        username("_____"),
        Err(AuthError::Validation(Field::Username, ValidationRule::Spell))
    );
}

#[test]
fn password_rules_have_their_own_range() {
    assert!(password("abcd1234").is_ok()); // 8 characters
    assert!(password("abcdefghijklmnopqrstuvwxyz012345").is_ok()); // 32
    assert_eq!(
        password("abc1234"), // 7 characters
        Err(AuthError::Validation(Field::Password, ValidationRule::Length))
    );
    assert_eq!(
        password("abcdefghijklmnopqrstuvwxyz0123456"), // 33
        Err(AuthError::Validation(Field::Password, ValidationRule::Length))
    );
    assert_eq!(
        password("pass word"),
        Err(AuthError::Validation(Field::Password, ValidationRule::Spell))
    );
    assert_eq!(
        password("________"),
        Err(AuthError::Validation(Field::Password, ValidationRule::Spell))
    );
}

#[test]
fn validate_checks_username_before_password() {
    let bad_both = UserRegister {
        username: "ab".to_string(),
        password: "x".to_string(),
        email: "a@b.c".to_string(),
    };
    assert_eq!(
        AuthValidateService::validate(&bad_both),
        Err(AuthError::Validation(Field::Username, ValidationRule::Length))
    );
    let bad_password = UserRegister {
        username: "alice".to_string(),
        password: "x".to_string(),
        email: "a@b.c".to_string(),
    };
    assert_eq!(
        AuthValidateService::validate(&bad_password),
        Err(AuthError::Validation(Field::Password, ValidationRule::Length))
    );
    let good = UserRegister {
        username: "alice".to_string(),
        password: "sup3r_secret".to_string(),
        email: "a@b.c".to_string(),
    };
    assert!(AuthValidateService::validate(&good).is_ok());
}
