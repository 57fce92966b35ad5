use elevate_backend::alerts::Alert;
use elevate_backend::alerts::AlertInput;
use elevate_backend::auth::generate_token;
use elevate_backend::auth::AuthConfig;
use elevate_backend::auth::BearerToken;
use elevate_backend::auth::TokenType;
use elevate_backend::errors::ApiError;
use elevate_backend::errors::GeocodeFailure;
use elevate_backend::location::Location;
use elevate_backend::mapquest::GeocodeOutcome;
use elevate_backend::mapquest::GeocodeRequest;
use elevate_backend::mapquest::MapquestResult;
use elevate_backend::store::Store;
use elevate_backend::user::User;
use elevate_backend::user::UserInput;
use elevate_backend::views_alert::create_alert;
use elevate_backend::views_alert::delete_alert;
use elevate_backend::views_alert::get_by_viewport;
use elevate_backend::views_alert::resolve_alert;
use elevate_backend::views_alert::update_alert;

const NOW: i64 = 1_700_000_000;

fn test_config() -> AuthConfig {
    AuthConfig {
        auth_secret: String::from("auth-secret-one"),
        verification_secret: String::from("verification-secret-two"),
        reset_secret: String::from("reset-secret-three"),
    }
}

fn seed_user(store: &mut Store, email: &str) -> User {
    let input = UserInput {
        name: String::from("Ada"),
        email: String::from(email),
        password: String::from("hunter2hunter2"),
        phone: Some(String::from("555-0100")),
    };
    User::init(&input, store, NOW).unwrap()
}

fn bearer_for(email: &str, config: &AuthConfig) -> BearerToken {
    BearerToken { token: generate_token(email, TokenType::Auth, config, NOW).unwrap() }
}

fn coords_input(lat: i64, lon: i64) -> AlertInput {
    AlertInput {
        alert_type: String::from("Fire"),
        description: Some(String::from("smoke visible")),
        place: None,
        latitude: Some(lat),
        longitude: Some(lon),
        display_email: true,
        display_phone: false,
        track_location: false,
    }
}

#[test]
fn create_alert_resolves_place_from_coordinates() {
    // Create at (40.00, -74.00) with no place; the resolver answers with
    // a street address; the stored alert carries it.
    let mut store = Store::new();
    let config = test_config();
    store.add_alert_type(&String::from("Fire"), 3, NOW).unwrap();
    seed_user(&mut store, "ada@example.com");
    let token = bearer_for("ada@example.com", &config);

    let input = coords_input(40_000_000, -74_000_000);
    let request = Alert::geocode_request(&input).unwrap();
    assert!(matches!(request, GeocodeRequest::Reverse { latitude: 40_000_000, longitude: -74_000_000 }));

    let outcome = GeocodeOutcome::Address(MapquestResult::Success(String::from("123 Main St")));
    let resp = create_alert(&input, &token, &outcome, &mut store, &config, NOW).unwrap();

    assert_eq!(resp.alert.alert.place, "123 Main St");
    assert_eq!(resp.alert.alert.latitude, 40_000_000);
    assert_eq!(resp.alert.alert.longitude, -74_000_000);
    assert_eq!(resp.alert.alert.created_by, "ada@example.com");
    assert_eq!(store.alerts.len(), 1);
    assert_eq!(store.alerts[0].place, "123 Main St");
    // Enrichment: the type row is attached, and the creator block shows
    // the email (display_email set) but not the phone.
    let type_obj = resp.alert.alert_type_obj.unwrap();
    assert_eq!(type_obj.name, "Fire");
    assert_eq!(type_obj.alert_level, 3);
    let info = resp.alert.user_info.unwrap();
    assert_eq!(info.name, "Ada");
    assert_eq!(info.email, Some(String::from("ada@example.com")));
    assert_eq!(info.phone, None);
}

#[test]
fn create_alert_resolves_coordinates_from_place() {
    let mut store = Store::new();
    let config = test_config();
    seed_user(&mut store, "ada@example.com");
    let token = bearer_for("ada@example.com", &config);

    let input = AlertInput {
        place: Some(String::from("123 Main St")),
        latitude: None,
        longitude: None,
        ..coords_input(0, 0)
    };
    let outcome = GeocodeOutcome::Coordinates(MapquestResult::Success((40_500_000, -74_250_000)));
    let resp = create_alert(&input, &token, &outcome, &mut store, &config, NOW).unwrap();
    assert_eq!(resp.alert.alert.place, "123 Main St");
    assert_eq!(resp.alert.alert.latitude, 40_500_000);
    assert_eq!(resp.alert.alert.longitude, -74_250_000);
}

#[test]
fn create_alert_with_nothing_supplied_is_ambiguous() {
    // place, latitude and longitude all absent: a caller error, and the
    // store is untouched.
    let mut store = Store::new();
    let config = test_config();
    seed_user(&mut store, "ada@example.com");
    let token = bearer_for("ada@example.com", &config);

    let input = AlertInput {
        place: None,
        latitude: None,
        longitude: None,
        ..coords_input(0, 0)
    };
    let outcome = GeocodeOutcome::Address(MapquestResult::NoResult);
    let r = create_alert(&input, &token, &outcome, &mut store, &config, NOW);
    assert_eq!(r.unwrap_err(), ApiError::InputAmbiguous);
    assert_eq!(store.alerts.len(), 0);
    assert_eq!(ApiError::InputAmbiguous.status(), 422);
}

#[test]
fn create_alert_with_both_halves_is_ambiguous() {
    let mut store = Store::new();
    let config = test_config();
    seed_user(&mut store, "ada@example.com");
    let token = bearer_for("ada@example.com", &config);

    let input = AlertInput {
        place: Some(String::from("123 Main St")),
        ..coords_input(40_000_000, -74_000_000)
    };
    let outcome = GeocodeOutcome::Address(MapquestResult::Success(String::from("x")));
    let r = create_alert(&input, &token, &outcome, &mut store, &config, NOW);
    assert_eq!(r.unwrap_err(), ApiError::InputAmbiguous);
    assert_eq!(store.alerts.len(), 0);
}

#[test]
fn create_alert_surfaces_geocode_failure() {
    let mut store = Store::new();
    let config = test_config();
    seed_user(&mut store, "ada@example.com");
    let token = bearer_for("ada@example.com", &config);

    let input = coords_input(40_000_000, -74_000_000);
    let outcome = GeocodeOutcome::Address(MapquestResult::NoResult);
    let r = create_alert(&input, &token, &outcome, &mut store, &config, NOW);
    assert_eq!(r.unwrap_err(), ApiError::GeocodeUnavailable { reason: GeocodeFailure::NoResult });
    assert_eq!(store.alerts.len(), 0);
}

#[test]
fn create_alert_requires_session() {
    let mut store = Store::new();
    let config = test_config();
    seed_user(&mut store, "ada@example.com");
    let token = BearerToken { token: String::from("bogus") };
    let input = coords_input(40_000_000, -74_000_000);
    let outcome = GeocodeOutcome::Address(MapquestResult::Success(String::from("x")));
    let r = create_alert(&input, &token, &outcome, &mut store, &config, NOW);
    assert_eq!(r.unwrap_err(), ApiError::Unauthorized);
    assert_eq!(store.alerts.len(), 0);
}

#[test]
fn non_owner_cannot_update_resolve_or_delete() {
    let mut store = Store::new();
    let config = test_config();
    seed_user(&mut store, "ada@example.com");
    seed_user(&mut store, "eve@example.com");
    let ada = bearer_for("ada@example.com", &config);
    let eve = bearer_for("eve@example.com", &config);

    let input = coords_input(40_000_000, -74_000_000);
    let outcome = GeocodeOutcome::Address(MapquestResult::Success(String::from("123 Main St")));
    let created = create_alert(&input, &ada, &outcome, &mut store, &config, NOW).unwrap();
    let id = created.alert.alert.id;

    let r = update_alert(id, &input, &eve, &outcome, &mut store, &config, NOW + 1);
    assert_eq!(r.unwrap_err(), ApiError::Forbidden);
    let r = resolve_alert(id, &eve, &mut store, &config, NOW + 1);
    assert_eq!(r.unwrap_err(), ApiError::Forbidden);
    let r = delete_alert(id, &eve, &mut store, &config, NOW + 1);
    assert_eq!(r.unwrap_err(), ApiError::Forbidden);

    // The alert is unchanged throughout.
    assert_eq!(store.alerts.len(), 1);
    assert_eq!(store.alerts[0].place, "123 Main St");
    assert!(!store.alerts[0].is_resolved);
    assert_eq!(store.alerts[0].updated_at, NOW);
    assert_eq!(ApiError::Forbidden.status(), 403);
}

#[test]
fn owner_updates_resolves_and_deletes() {
    let mut store = Store::new();
    let config = test_config();
    seed_user(&mut store, "ada@example.com");
    let ada = bearer_for("ada@example.com", &config);

    let input = coords_input(40_000_000, -74_000_000);
    let outcome = GeocodeOutcome::Address(MapquestResult::Success(String::from("123 Main St")));
    let created = create_alert(&input, &ada, &outcome, &mut store, &config, NOW).unwrap();
    let id = created.alert.alert.id;

    // Replace with a place-only input; the resolver supplies coordinates.
    let new_input = AlertInput {
        place: Some(String::from("456 Oak Ave")),
        latitude: None,
        longitude: None,
        ..coords_input(0, 0)
    };
    let new_outcome =
        GeocodeOutcome::Coordinates(MapquestResult::Success((41_000_000, -73_000_000)));
    let updated = update_alert(id, &new_input, &ada, &new_outcome, &mut store, &config, NOW + 5)
        .unwrap();
    assert_eq!(updated.alert.place, "456 Oak Ave");
    assert_eq!(updated.alert.latitude, 41_000_000);
    assert_eq!(updated.alert.created_by, "ada@example.com");
    assert_eq!(updated.alert.created_at, NOW);
    assert_eq!(updated.alert.updated_at, NOW + 5);

    let resolved = resolve_alert(id, &ada, &mut store, &config, NOW + 6).unwrap();
    assert!(resolved.alert.is_resolved);
    assert!(store.alerts[0].is_resolved);

    let deleted = delete_alert(id, &ada, &mut store, &config, NOW + 7).unwrap();
    assert_eq!(deleted.alert.id, id);
    assert_eq!(deleted.alert.place, "456 Oak Ave");
    assert_eq!(store.alerts.len(), 0);
}

#[test]
fn missing_alert_reads_as_not_found() {
    let mut store = Store::new();
    let config = test_config();
    seed_user(&mut store, "ada@example.com");
    let ada = bearer_for("ada@example.com", &config);
    let r = resolve_alert(99, &ada, &mut store, &config, NOW);
    assert_eq!(r.unwrap_err(), ApiError::AlertNotFound);
}

#[test]
fn viewport_handler_returns_enriched_alerts_inside() {
    let mut store = Store::new();
    let config = test_config();
    store.add_alert_type(&String::from("Fire"), 3, NOW).unwrap();
    seed_user(&mut store, "ada@example.com");
    let ada = bearer_for("ada@example.com", &config);

    let outcome = GeocodeOutcome::Address(MapquestResult::Success(String::from("123 Main St")));
    create_alert(&coords_input(40_000_000, -74_000_000), &ada, &outcome, &mut store, &config, NOW)
        .unwrap();
    create_alert(&coords_input(45_000_000, -74_000_000), &ada, &outcome, &mut store, &config, NOW)
        .unwrap();

    let found =
        get_by_viewport(40_000_000, -74_000_000, 400_000, 400_000, &ada, &store, &config, NOW)
            .unwrap();
    assert_eq!(found.len(), 1);
    assert_eq!(found[0].alert.latitude, 40_000_000);
    assert_eq!(found[0].alert_type_obj.as_ref().unwrap().name, "Fire");
}

#[test]
fn tracked_alerts_follow_the_creators_location() {
    let mut store = Store::new();
    let config = test_config();
    let user = seed_user(&mut store, "ada@example.com");
    let ada = bearer_for("ada@example.com", &config);

    let mut input = coords_input(40_000_000, -74_000_000);
    input.track_location = true;
    let outcome = GeocodeOutcome::Address(MapquestResult::Success(String::from("123 Main St")));
    create_alert(&input, &ada, &outcome, &mut store, &config, NOW).unwrap();

    let location = Location {
        user_id: user.id,
        latitude: 40_200_000,
        longitude: -74_200_000,
        created_at: NOW + 10,
        updated_at: NOW + 10,
    };
    let moved = Alert::update_tracking_alert(
        &location,
        &MapquestResult::Success(String::from("789 Pine Rd")),
        &mut store,
        NOW + 10,
    );
    assert_eq!(moved.len(), 1);
    assert_eq!(store.alerts[0].latitude, 40_200_000);
    assert_eq!(store.alerts[0].longitude, -74_200_000);
    assert_eq!(store.alerts[0].place, "789 Pine Rd");

    // A failed lookup changes nothing.
    let unmoved = Alert::update_tracking_alert(
        &location,
        &MapquestResult::NoResult,
        &mut store,
        NOW + 20,
    );
    assert_eq!(unmoved.len(), 0);
    assert_eq!(store.alerts[0].place, "789 Pine Rd");
}
