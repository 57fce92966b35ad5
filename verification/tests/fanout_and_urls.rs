use elevate_backend::alerts::Alert;
use elevate_backend::alerts::AlertInput;
use elevate_backend::alerts::AlertNotificationInfo;
use elevate_backend::auth::generate_token;
use elevate_backend::auth::AuthConfig;
use elevate_backend::auth::BearerToken;
use elevate_backend::auth::TokenType;
use elevate_backend::digits::i64_string;
use elevate_backend::digits::micro_coord_string;
use elevate_backend::digits::u64_string;
use elevate_backend::errors::ApiError;
use elevate_backend::errors::GeocodeFailure;
use elevate_backend::firebase::build_notification_payloads;
use elevate_backend::firebase::count_successes;
use elevate_backend::firebase::notification_message;
use elevate_backend::firebase::notification_title;
use elevate_backend::location::Location;
use elevate_backend::mapquest::get_address;
use elevate_backend::mapquest::get_address_url;
use elevate_backend::mapquest::get_location_url;
use elevate_backend::mapquest::GeocodeOutcome;
use elevate_backend::mapquest::MapquestResult;
use elevate_backend::mapquest::PlaceParts;
use elevate_backend::request::get_health;
use elevate_backend::store::DeviceTokenRow;
use elevate_backend::store::Store;
use elevate_backend::user::User;
use elevate_backend::user::UserInput;
use elevate_backend::views_alert::create_alert;
use elevate_backend::views_location::address_from_outcome;

const NOW: i64 = 1_700_000_000;

fn sample_alert() -> Alert {
    Alert {
        id: 1,
        alert_type: String::from("Fire"),
        description: None,
        place: String::from("123 Main St"),
        latitude: 40_000_000,
        longitude: -74_000_000,
        display_email: false,
        display_phone: false,
        track_location: false,
        created_by: String::from("ada@example.com"),
        is_resolved: false,
        created_at: NOW,
        updated_at: NOW,
    }
}

#[test]
fn fanout_counts_only_successful_sends() {
    // Three recipients, the gateway fails for the second: the count is 2.
    let outcomes = vec![true, false, true];
    assert_eq!(count_successes(&outcomes), 2);
    assert_eq!(count_successes(&Vec::new()), 0);
    assert_eq!(count_successes(&vec![false, false]), 0);
}

#[test]
fn alert_creation_succeeds_regardless_of_fanout() {
    // Commit-then-notify: the mutation is committed before any dispatch,
    // so a partial fanout failure never affects the stored alert.
    let mut store = Store::new();
    let config = AuthConfig {
        auth_secret: String::from("auth-secret-one"),
        verification_secret: String::from("verification-secret-two"),
        reset_secret: String::from("reset-secret-three"),
    };
    let input = UserInput {
        name: String::from("Ada"),
        email: String::from("ada@example.com"),
        password: String::from("hunter2hunter2"),
        phone: None,
    };
    User::init(&input, &mut store, NOW).unwrap();
    store.device_tokens.push(DeviceTokenRow {
        user_id: 1,
        token: String::from("token-near"),
        updated_at: NOW,
    });
    store.locations.push(Location {
        user_id: 1,
        latitude: 40_050_000,
        longitude: -74_050_000,
        created_at: NOW,
        updated_at: NOW,
    });
    let bearer = BearerToken {
        token: generate_token("ada@example.com", TokenType::Auth, &config, NOW).unwrap(),
    };
    let alert_input = AlertInput {
        alert_type: String::from("Fire"),
        description: None,
        place: None,
        latitude: Some(40_000_000),
        longitude: Some(-74_000_000),
        display_email: false,
        display_phone: false,
        track_location: false,
    };
    let outcome = GeocodeOutcome::Address(MapquestResult::Success(String::from("123 Main St")));
    let resp = create_alert(&alert_input, &bearer, &outcome, &mut store, &config, NOW).unwrap();
    assert_eq!(resp.recipients.len(), 1);

    // The gateway fails for every recipient; the alert is still stored.
    let outcomes = vec![false];
    assert_eq!(count_successes(&outcomes), 0);
    assert_eq!(store.alerts.len(), 1);
}

#[test]
fn notification_payloads_carry_title_body_and_token() {
    let alert = sample_alert();
    let recipients = vec![
        AlertNotificationInfo {
            token: String::from("token-a"),
            latitude: 40_050_000,
            longitude: -74_050_000,
        },
        AlertNotificationInfo {
            token: String::from("token-b"),
            latitude: 40_060_000,
            longitude: -74_060_000,
        },
    ];
    let distances = vec![String::from("4.3"), String::from("5.1")];
    let payloads = build_notification_payloads(&alert, &recipients, &distances);
    assert_eq!(payloads.len(), 2);
    assert_eq!(payloads[0].to, "token-a");
    assert_eq!(payloads[0].title, "Elevate Fire Alert");
    assert_eq!(payloads[0].message, "Fire reported near 123 Main St! About 4.3 miles away");
    assert_eq!(payloads[1].to, "token-b");
    assert_eq!(payloads[1].message, "Fire reported near 123 Main St! About 5.1 miles away");
    assert_eq!(payloads[1].priority, 10);

    assert_eq!(notification_title(&String::from("Flood")), "Elevate Flood Alert");
    assert_eq!(
        notification_message(&String::from("Flood"), &String::from("Pier 9"), &String::from("0.8")),
        "Flood reported near Pier 9! About 0.8 miles away"
    );
}

#[test]
fn decimal_rendering_is_exact() {
    assert_eq!(u64_string(0), "0");
    assert_eq!(u64_string(907), "907");
    assert_eq!(i64_string(-42), "-42");
    assert_eq!(i64_string(7), "7");
    assert_eq!(micro_coord_string(40_000_000), "40.000000");
    assert_eq!(micro_coord_string(-74_123_456), "-74.123456");
    assert_eq!(micro_coord_string(145_000), "0.145000");
    assert_eq!(micro_coord_string(-145_000), "-0.145000");
}

#[test]
fn geocode_request_urls_are_exact() {
    let key = String::from("k123");
    assert_eq!(
        get_address_url(&key, 40_000_000, -74_123_456),
        "http://www.mapquestapi.com/geocoding/v1/reverse?key=k123&location=40.000000,-74.123456"
    );
    // The place string is percent-encoded, not passed through unchanged.
    assert_eq!(
        get_location_url(&key, &String::from("123 Main St")),
        "http://www.mapquestapi.com/geocoding/v1/address?key=k123&location=123%20Main%20St"
    );
}

#[test]
fn reverse_lookup_reply_is_formatted_or_passed_through() {
    let parts = PlaceParts {
        street: String::from("123 Main St"),
        city: String::from("Springfield"),
        state: String::from("NJ"),
        country: String::from("US"),
    };
    match get_address(&MapquestResult::Success(parts)) {
        MapquestResult::Success(s) => assert_eq!(s, "123 Main St, Springfield, NJ, US"),
        _ => panic!("expected a formatted place"),
    }
    assert!(matches!(
        get_address(&MapquestResult::<PlaceParts>::NoResult),
        MapquestResult::NoResult
    ));

    let ok = address_from_outcome(&MapquestResult::Success(String::from("x"))).unwrap();
    assert_eq!(ok, "x");
    let err = address_from_outcome(&MapquestResult::<String>::NoAPIKey).unwrap_err();
    assert_eq!(err, ApiError::GeocodeUnavailable { reason: GeocodeFailure::NoApiKey });
}

#[test]
fn health_probe_answers() {
    assert_eq!(get_health(), "Server is alive!");
}
