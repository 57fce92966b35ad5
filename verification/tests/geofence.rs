use elevate_backend::alerts::Alert;
use elevate_backend::geo::check_inside_viewport;
use elevate_backend::geo::check_within_geofence;
use elevate_backend::geo::GEOFENCE_HALF_WIDTH;
use elevate_backend::location::Location;
use elevate_backend::store::DeviceTokenRow;
use elevate_backend::store::Store;

const NOW: i64 = 1_700_000_000;

fn alert_at(lat: i64, lon: i64) -> Alert {
    Alert {
        id: 1,
        alert_type: String::from("Fire"),
        description: None,
        place: String::from("123 Main St"),
        latitude: lat,
        longitude: lon,
        display_email: false,
        display_phone: false,
        track_location: false,
        created_by: String::from("ada@example.com"),
        is_resolved: false,
        created_at: NOW,
        updated_at: NOW,
    }
}

fn seed_recipient(store: &mut Store, user_id: i64, token: &str, lat: i64, lon: i64) {
    store.device_tokens.push(DeviceTokenRow {
        user_id,
        token: String::from(token),
        updated_at: NOW,
    });
    store.locations.push(Location {
        user_id,
        latitude: lat,
        longitude: lon,
        created_at: NOW,
        updated_at: NOW,
    });
}

#[test]
fn geofence_boundary_is_exclusive() {
    let lat0: i64 = 40_000_000;
    let lon0: i64 = -74_000_000;
    // Strictly inside.
    assert!(check_within_geofence(lat0 + GEOFENCE_HALF_WIDTH - 1, lon0, lat0, lon0));
    // Exactly on the boundary: excluded.
    assert!(!check_within_geofence(lat0 + GEOFENCE_HALF_WIDTH, lon0, lat0, lon0));
    assert!(!check_within_geofence(lat0 - GEOFENCE_HALF_WIDTH, lon0, lat0, lon0));
    assert!(!check_within_geofence(lat0, lon0 + GEOFENCE_HALF_WIDTH, lat0, lon0));
    // Both axes must qualify.
    assert!(!check_within_geofence(lat0, lon0 + GEOFENCE_HALF_WIDTH + 5, lat0, lon0));
}

#[test]
fn three_records() {
    // Recipient discovery returns exactly the tokens whose user's last
    // location satisfies both strict bounds.
    let mut store = Store::new();
    let lat0: i64 = 40_000_000;
    let lon0: i64 = -74_000_000;
    seed_recipient(&mut store, 1, "token-inside", lat0 + 100_000, lon0 - 100_000);
    seed_recipient(&mut store, 2, "token-boundary", lat0 + GEOFENCE_HALF_WIDTH, lon0);
    seed_recipient(&mut store, 3, "token-outside", lat0 + 10_000_000, lon0);

    let alert = alert_at(lat0, lon0);
    let recipients = alert.get_notification_info(&store);
    assert_eq!(recipients.len(), 1);
    assert_eq!(recipients[0].token, "token-inside");
    assert_eq!(recipients[0].latitude, lat0 + 100_000);
    assert_eq!(recipients[0].longitude, lon0 - 100_000);
}

#[test]
fn recipient_without_location_is_skipped() {
    let mut store = Store::new();
    store.device_tokens.push(DeviceTokenRow {
        user_id: 7,
        token: String::from("token-no-location"),
        updated_at: NOW,
    });
    let alert = alert_at(0, 0);
    assert_eq!(alert.get_notification_info(&store).len(), 0);
}

#[test]
fn viewport_is_strictly_inside() {
    assert!(check_inside_viewport(5, 5, 10, 10, 0, 0));
    // The corners themselves are excluded.
    assert!(!check_inside_viewport(10, 5, 10, 10, 0, 0));
    assert!(!check_inside_viewport(0, 5, 10, 10, 0, 0));
    assert!(!check_inside_viewport(5, 10, 10, 10, 0, 0));
}

#[test]
fn viewport_query_filters_alerts() {
    let mut store = Store::new();
    let mut inside = alert_at(40_000_000, -74_000_000);
    inside.id = 1;
    let mut outside = alert_at(41_000_000, -74_000_000);
    outside.id = 2;
    store.alerts.push(inside);
    store.alerts.push(outside);
    store.next_alert_id = 3;

    let found = Alert::get_by_viewport(
        40_100_000i128,
        -73_900_000i128,
        39_900_000i128,
        -74_100_000i128,
        &store,
    );
    assert_eq!(found.len(), 1);
    assert_eq!(found[0].id, 1);
}
