use auth_engine::errors::AuthError;
use auth_engine::jwt::JWTService;

const SECRET: &str = "test-signing-secret";

#[test]
fn access_token_round_trips_through_decode() {
    let now: u64 = 1_700_000_000;
    let token = JWTService::generate(SECRET, 42, now).unwrap();
    let claims = JWTService::decode_token(SECRET, &token).unwrap();
    assert_eq!(claims.sub, 42);
    assert_eq!(claims.exp, now + 3600);
    assert!(!claims.refresh);
}

#[test]
fn refresh_token_carries_the_refresh_flag_and_long_window() {
    let now: u64 = 1_700_000_000;
    let token = JWTService::generate_refresh(SECRET, 7, now).unwrap();
    let claims = JWTService::decode_token(SECRET, &token).unwrap();
    assert_eq!(claims.sub, 7);
    assert_eq!(claims.exp, now + 604800);
    assert!(claims.refresh);
}

#[test]
fn malformed_tokens_fail_decode_outright() {
    assert!(!JWTService::is_valid(SECRET, "not-a-token"));
    assert!(!JWTService::is_valid(SECRET, "a.b"));
    assert!(!JWTService::is_valid(SECRET, ""));
    assert_eq!(
        JWTService::decode_token(SECRET, "a.b.c"),
        Err(AuthError::WrongCredentials)
    );
}

#[test]
fn tokens_signed_with_another_secret_are_rejected() {
    let now: u64 = 1_700_000_000;
    let token = JWTService::generate("other-secret", 42, now).unwrap();
    assert!(!JWTService::is_valid(SECRET, &token));
    assert!(JWTService::is_valid("other-secret", &token));
}

#[test]
fn liveness_follows_the_simulated_clock() {
    let issued: u64 = 1_700_000_000;
    let token = JWTService::generate(SECRET, 42, issued).unwrap();
    // Live immediately after issuance.
    assert_eq!(JWTService::is_active(SECRET, &token, issued), Ok(42));
    // Live up to the last instant strictly before the expiry.
    assert!(JWTService::is_active(SECRET, &token, issued + 3599).is_ok());
    // Dead once the window has elapsed.
    assert_eq!(
        JWTService::is_active(SECRET, &token, issued + 3600),
        Err(AuthError::WrongCredentials)
    );
    assert!(JWTService::is_active(SECRET, &token, issued + 7200).is_err());
    // Decoding itself never consults the clock.
    assert!(JWTService::is_valid(SECRET, &token));
}

#[test]
fn calculate_exp_is_minutes_from_now() {
    assert_eq!(JWTService::calculate_exp(1000, 60), 1000 + 3600);
    assert_eq!(JWTService::calculate_exp(0, 10080), 604800);
}
