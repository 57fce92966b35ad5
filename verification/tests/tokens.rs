use elevate_backend::auth::generate_token;
use elevate_backend::auth::retrieve_token;
use elevate_backend::auth::store_token;
use elevate_backend::auth::token_retrievable;
use elevate_backend::auth::validate_token;
use elevate_backend::auth::AuthConfig;
use elevate_backend::auth::TokenType;
use elevate_backend::auth::SESSION_LIFETIME_SECS;
use elevate_backend::auth::TOKEN_VALIDITY_SECS;
use elevate_backend::errors::ApiError;
use elevate_backend::store::Store;

fn test_config() -> AuthConfig {
    AuthConfig {
        auth_secret: String::from("auth-secret-one"),
        verification_secret: String::from("verification-secret-two"),
        reset_secret: String::from("reset-secret-three"),
    }
}

const NOW: i64 = 1_700_000_000;

#[test]
fn session_token_round_trip() {
    let config = test_config();
    let token = generate_token("ada@example.com", TokenType::Auth, &config, NOW).unwrap();
    // A real signed JWT, not the subject handed back.
    assert_ne!(token, "ada@example.com");
    assert!(token.matches('.').count() == 2);
    let subject = validate_token(&token, TokenType::Auth, &config, NOW + 10).unwrap();
    assert_eq!(subject, "ada@example.com");
}

#[test]
fn session_token_rejects_wrong_purpose() {
    let config = test_config();
    let token = generate_token("ada@example.com", TokenType::Auth, &config, NOW).unwrap();
    let r = validate_token(&token, TokenType::Verification, &config, NOW + 10);
    assert_eq!(r, Err(ApiError::InvalidSignature));
}

#[test]
fn session_token_expires_after_ninety_days() {
    let config = test_config();
    let token = generate_token("ada@example.com", TokenType::Auth, &config, NOW).unwrap();
    let at_expiry = validate_token(&token, TokenType::Auth, &config, NOW + SESSION_LIFETIME_SECS);
    assert_eq!(at_expiry, Err(ApiError::Expired));
    let just_before =
        validate_token(&token, TokenType::Auth, &config, NOW + SESSION_LIFETIME_SECS - 1);
    assert_eq!(just_before, Ok(String::from("ada@example.com")));
}

#[test]
fn session_token_rejects_garbage() {
    let config = test_config();
    let r = validate_token("not-a-token", TokenType::Auth, &config, NOW);
    assert_eq!(r, Err(ApiError::InvalidSignature));
}

#[test]
fn single_use_token_consumed_once() {
    let mut store = Store::new();
    let value = String::from("opaque-token-value");
    let subject = String::from("ada@example.com");
    store_token(&value, TokenType::Verification, &subject, &mut store, NOW).unwrap();

    let first = retrieve_token(&value, &mut store, NOW + 60);
    assert_eq!(first, Some(value.clone()));
    // Idempotence of consumption: the second retrieval finds nothing.
    let second = retrieve_token(&value, &mut store, NOW + 60);
    assert_eq!(second, None);
    assert_eq!(store.tokens.len(), 0);
}

#[test]
fn racing_retrievals_yield_exactly_one_subject() {
    // The atomic delete-and-return means that of two requests presenting
    // the same reset token value, exactly one receives a usable value.
    let mut store = Store::new();
    let value = String::from("reset-token-value");
    let subject = String::from("ada@example.com");
    store_token(&value, TokenType::PasswordReset, &subject, &mut store, NOW).unwrap();

    let winner = retrieve_token(&value, &mut store, NOW + 1);
    let loser = retrieve_token(&value, &mut store, NOW + 1);
    assert_eq!(winner, Some(value));
    assert_eq!(loser, None);
}

#[test]
fn stale_token_not_retrievable_even_if_present() {
    let mut store = Store::new();
    let value = String::from("old-token-value");
    let subject = String::from("ada@example.com");
    store_token(&value, TokenType::Verification, &subject, &mut store, NOW).unwrap();

    let later = NOW + TOKEN_VALIDITY_SECS;
    let r = retrieve_token(&value, &mut store, later);
    assert_eq!(r, None);
    // The row is still present in storage: staleness, not absence.
    assert_eq!(store.tokens.len(), 1);
    assert!(!token_retrievable(&value, &store, later));

    // Just inside the window it would still have been retrievable.
    assert!(token_retrievable(&value, &store, NOW + TOKEN_VALIDITY_SECS - 1));
}

#[test]
fn storing_purges_rows_past_retention() {
    let mut store = Store::new();
    let old_value = String::from("very-old-token");
    let new_value = String::from("fresh-token");
    let subject = String::from("ada@example.com");
    store_token(&old_value, TokenType::Verification, &subject, &mut store, NOW).unwrap();

    let much_later = NOW + 8 * 86_400;
    store_token(&new_value, TokenType::Verification, &subject, &mut store, much_later).unwrap();
    assert_eq!(store.tokens.len(), 1);
    assert_eq!(store.tokens[0].token, new_value);
}

#[test]
fn storing_duplicate_value_is_refused() {
    let mut store = Store::new();
    let value = String::from("opaque-token-value");
    let subject = String::from("ada@example.com");
    store_token(&value, TokenType::Verification, &subject, &mut store, NOW).unwrap();
    let r = store_token(&value, TokenType::Verification, &subject, &mut store, NOW + 1);
    assert_eq!(r, Err(ApiError::DuplicateToken));
    assert_eq!(store.tokens.len(), 1);
}
