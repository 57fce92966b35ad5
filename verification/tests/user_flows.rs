use elevate_backend::auth::AuthConfig;
use elevate_backend::auth::BasicAuth;
use elevate_backend::auth::BearerToken;
use elevate_backend::auth::TokenType;
use elevate_backend::auth::generate_token;
use elevate_backend::errors::ApiError;
use elevate_backend::location::LocationInput;
use elevate_backend::store::Store;
use elevate_backend::user::UserInput;
use elevate_backend::views_location::get_user_address;
use elevate_backend::views_location::get_user_location;
use elevate_backend::views_location::update_user_location;
use elevate_backend::views_user::create_user;
use elevate_backend::views_user::login;
use elevate_backend::views_user::request_password_reset;
use elevate_backend::views_user::reset_password;
use elevate_backend::views_user::update_device_token;
use elevate_backend::views_user::verify_email;
use elevate_backend::views_user::DeviceToken;

const NOW: i64 = 1_700_000_000;

fn test_config() -> AuthConfig {
    AuthConfig {
        auth_secret: String::from("auth-secret-one"),
        verification_secret: String::from("verification-secret-two"),
        reset_secret: String::from("reset-secret-three"),
    }
}

fn ada_input() -> UserInput {
    UserInput {
        name: String::from("Ada"),
        email: String::from("ada@example.com"),
        password: String::from("hunter2hunter2"),
        phone: None,
    }
}

fn basic(user: &str, password: Option<&str>) -> BasicAuth {
    BasicAuth { username: String::from(user), password: password.map(String::from) }
}

#[test]
fn registration_and_login_round_trip() {
    let mut store = Store::new();
    let config = test_config();
    let created = create_user(&ada_input(), &mut store, &config, NOW).unwrap();
    assert!(!created.user.verified);
    // The stored credential is a hash, never the plaintext.
    assert_ne!(created.user.password, "hunter2hunter2");

    // Login is refused until the email is verified.
    let r = login(&basic("ada@example.com", Some("hunter2hunter2")), &store, &config, NOW);
    assert_eq!(r.unwrap_err(), ApiError::NotVerified);
    assert_eq!(ApiError::NotVerified.status(), 428);

    let bearer = BearerToken { token: created.verification_token.clone() };
    let verified = verify_email(&bearer, &mut store, &config, NOW + 5).unwrap();
    assert!(verified.verified);
    assert_eq!(store.tokens.len(), 0);

    // A second presentation of the same verification token reads as
    // consumed.
    let again = verify_email(&bearer, &mut store, &config, NOW + 6);
    assert_eq!(again.unwrap_err(), ApiError::TokenNotFound);

    let ok = login(&basic("ada@example.com", Some("hunter2hunter2")), &store, &config, NOW + 10)
        .unwrap();
    assert_eq!(ok.user.email, "ada@example.com");
    // The session token the login returns validates for its subject.
    let sub = elevate_backend::auth::validate_token(&ok.token, TokenType::Auth, &config, NOW + 11)
        .unwrap();
    assert_eq!(sub, "ada@example.com");

    let wrong = login(&basic("ada@example.com", Some("wrong-password")), &store, &config, NOW);
    assert_eq!(wrong.unwrap_err(), ApiError::IncorrectPassword);
    let nopw = login(&basic("ada@example.com", None), &store, &config, NOW);
    assert_eq!(nopw.unwrap_err(), ApiError::MissingPassword);
    let nouser = login(&basic("bob@example.com", Some("x")), &store, &config, NOW);
    assert_eq!(nouser.unwrap_err(), ApiError::UserNotFound);
}

#[test]
fn duplicate_registration_is_refused() {
    let mut store = Store::new();
    let config = test_config();
    create_user(&ada_input(), &mut store, &config, NOW).unwrap();
    let r = create_user(&ada_input(), &mut store, &config, NOW + 90_000);
    assert_eq!(r.unwrap_err(), ApiError::DuplicateEmail);
    assert_eq!(store.users.len(), 1);
}

#[test]
fn password_reset_flow_consumes_the_token_once() {
    let mut store = Store::new();
    let config = test_config();
    let created = create_user(&ada_input(), &mut store, &config, NOW).unwrap();
    let bearer = BearerToken { token: created.verification_token.clone() };
    verify_email(&bearer, &mut store, &config, NOW + 1).unwrap();

    // Reset needs a verified account.
    let reset_token =
        request_password_reset(&String::from("ada@example.com"), &mut store, &config, NOW + 2)
            .unwrap();

    // Two requests race on the same token value: exactly one receives a
    // usable subject, the other reads not-found.
    let first = reset_password(
        &basic(&reset_token, Some("new-password-123")),
        &mut store,
        &config,
        NOW + 3,
    );
    assert!(first.is_ok());
    let second = reset_password(
        &basic(&reset_token, Some("other-password-456")),
        &mut store,
        &config,
        NOW + 3,
    );
    assert_eq!(second.unwrap_err(), ApiError::TokenNotFound);

    // Only the winning password logs in.
    let ok = login(&basic("ada@example.com", Some("new-password-123")), &store, &config, NOW + 4);
    assert!(ok.is_ok());
    let old = login(&basic("ada@example.com", Some("hunter2hunter2")), &store, &config, NOW + 4);
    assert_eq!(old.unwrap_err(), ApiError::IncorrectPassword);
}

#[test]
fn password_reset_requires_verified_account() {
    let mut store = Store::new();
    let config = test_config();
    create_user(&ada_input(), &mut store, &config, NOW).unwrap();
    let r = request_password_reset(&String::from("ada@example.com"), &mut store, &config, NOW + 2);
    assert_eq!(r.unwrap_err(), ApiError::NotVerified);
    let r = request_password_reset(&String::from("bob@example.com"), &mut store, &config, NOW + 2);
    assert_eq!(r.unwrap_err(), ApiError::UserNotFound);
}

#[test]
fn device_token_is_upserted_per_user() {
    let mut store = Store::new();
    let config = test_config();
    create_user(&ada_input(), &mut store, &config, NOW).unwrap();
    let session = BearerToken {
        token: generate_token("ada@example.com", TokenType::Auth, &config, NOW).unwrap(),
    };
    update_device_token(
        &DeviceToken { token: String::from("device-one") },
        &session,
        &mut store,
        &config,
        NOW + 1,
    )
    .unwrap();
    update_device_token(
        &DeviceToken { token: String::from("device-two") },
        &session,
        &mut store,
        &config,
        NOW + 2,
    )
    .unwrap();
    assert_eq!(store.device_tokens.len(), 1);
    assert_eq!(store.device_tokens[0].token, "device-two");

    let bogus = BearerToken { token: String::from("bogus") };
    let r = update_device_token(
        &DeviceToken { token: String::from("device-three") },
        &bogus,
        &mut store,
        &config,
        NOW + 3,
    );
    assert_eq!(r.unwrap_err(), ApiError::Unauthorized);
    assert_eq!(ApiError::Unauthorized.status(), 401);
}

#[test]
fn location_updates_keep_one_row_per_user() {
    let mut store = Store::new();
    let config = test_config();
    create_user(&ada_input(), &mut store, &config, NOW).unwrap();
    let session = BearerToken {
        token: generate_token("ada@example.com", TokenType::Auth, &config, NOW).unwrap(),
    };

    let r = update_user_location(&Vec::new(), &session, &mut store, &config, NOW + 1);
    assert_eq!(r.unwrap_err(), ApiError::NoLocationsGiven);

    // Of a batch of samples only the latest is kept.
    let batch = vec![
        LocationInput { latitude: 1_000_000, longitude: 2_000_000 },
        LocationInput { latitude: 40_000_000, longitude: -74_000_000 },
    ];
    let stored = update_user_location(&batch, &session, &mut store, &config, NOW + 2).unwrap();
    assert_eq!(stored.latitude, 40_000_000);
    assert_eq!(store.locations.len(), 1);
    assert_eq!(store.locations[0].created_at, NOW + 2);

    let batch2 = vec![LocationInput { latitude: 41_000_000, longitude: -75_000_000 }];
    update_user_location(&batch2, &session, &mut store, &config, NOW + 9).unwrap();
    assert_eq!(store.locations.len(), 1);
    assert_eq!(store.locations[0].latitude, 41_000_000);
    // An upsert keeps the row's creation time.
    assert_eq!(store.locations[0].created_at, NOW + 2);
    assert_eq!(store.locations[0].updated_at, NOW + 9);

    let read = get_user_location(&session, &store, &config, NOW + 10).unwrap();
    assert_eq!(read.unwrap().latitude, 41_000_000);

    let coords = get_user_address(&session, &store, &config, NOW + 11).unwrap();
    assert_eq!(coords, (41_000_000, -75_000_000));
}

#[test]
fn address_lookup_without_location_fails() {
    let mut store = Store::new();
    let config = test_config();
    create_user(&ada_input(), &mut store, &config, NOW).unwrap();
    let session = BearerToken {
        token: generate_token("ada@example.com", TokenType::Auth, &config, NOW).unwrap(),
    };
    let r = get_user_address(&session, &store, &config, NOW + 1);
    assert_eq!(r.unwrap_err(), ApiError::LocationNotFound);
}

#[test]
fn same_second_reset_requests_conflict_on_the_token_value() {
    // Signing is deterministic, so two requests for the same subject in
    // the same second produce the same opaque value; the second insert is
    // refused and the store is left as a rolled-back transaction would be.
    let mut store = Store::new();
    let config = test_config();
    let created = create_user(&ada_input(), &mut store, &config, NOW).unwrap();
    verify_email(
        &BearerToken { token: created.verification_token.clone() },
        &mut store,
        &config,
        NOW + 1,
    )
    .unwrap();

    request_password_reset(&String::from("ada@example.com"), &mut store, &config, NOW + 2)
        .unwrap();
    let second =
        request_password_reset(&String::from("ada@example.com"), &mut store, &config, NOW + 2);
    assert_eq!(second.unwrap_err(), ApiError::DuplicateToken);
    assert_eq!(store.tokens.len(), 1);
}

#[test]
fn exhausted_id_space_reads_as_unavailable() {
    let mut store = Store::new();
    store.next_user_id = i64::MAX;
    let config = test_config();
    let r = create_user(&ada_input(), &mut store, &config, NOW);
    assert_eq!(r.unwrap_err(), ApiError::StoreUnavailable);
    assert_eq!(ApiError::StoreUnavailable.status(), 503);
    assert_eq!(store.users.len(), 0);
}

#[test]
fn single_use_token_of_the_wrong_purpose_is_rejected_uniformly() {
    // A stored value that validates for another purpose fails the access
    // chain after consumption is possible, with the uniform rejection.
    let mut store = Store::new();
    let config = test_config();
    create_user(&ada_input(), &mut store, &config, NOW).unwrap();
    let auth_signed = generate_token("ada@example.com", TokenType::Auth, &config, NOW).unwrap();
    elevate_backend::auth::store_token(
        &auth_signed,
        TokenType::Verification,
        &String::from("ada@example.com"),
        &mut store,
        NOW,
    )
    .unwrap();
    let r = verify_email(
        &BearerToken { token: auth_signed },
        &mut store,
        &config,
        NOW + 1,
    );
    assert_eq!(r.unwrap_err(), ApiError::Unauthorized);
    // The account stays unverified.
    assert!(!store.users[0].verified);
}
