//! Coordinate model and the geofence / viewport predicates.
//!
//! Latitudes and longitudes are carried as microdegrees: degrees scaled by
//! one million, held in an `i64`.  The scale keeps every comparison exact,
//! which is what the recipient-selection rule needs (the boundary is
//! excluded by a strict inequality).  Comparisons compute in `i128`, so no
//! coordinate value can overflow them.

use vstd::prelude::*;

verus! {

/// One degree, in microdegrees.
pub const MICRODEG_PER_DEG: i64 = 1_000_000;

/// Half-width of the square geofence used to pick notification recipients,
/// in microdegrees.  0.145 degrees is roughly ten miles at mid-latitudes; a
/// deliberately coarse, cheap pre-filter, not geodesically exact.
pub const GEOFENCE_HALF_WIDTH: i64 = 145_000;

/// A point qualifies for notification when both coordinate deltas from the
/// alert are strictly below the geofence half-width.
pub open spec fn within_geofence(lat: int, lon: int, alert_lat: int, alert_lon: int) -> bool {
    &&& alert_lat - lat < GEOFENCE_HALF_WIDTH
    &&& lat - alert_lat < GEOFENCE_HALF_WIDTH
    &&& alert_lon - lon < GEOFENCE_HALF_WIDTH
    &&& lon - alert_lon < GEOFENCE_HALF_WIDTH
}

/// A point lies strictly inside the rectangle spanned by a north-east and a
/// south-west corner.
pub open spec fn inside_viewport(
    lat: int,
    lon: int,
    ne_lat: int,
    ne_lon: int,
    sw_lat: int,
    sw_lon: int,
) -> bool {
    &&& lat < ne_lat
    &&& lon < ne_lon
    &&& lat > sw_lat
    &&& lon > sw_lon
}

/// Decides the geofence predicate on concrete coordinates.
pub fn check_within_geofence(lat: i64, lon: i64, alert_lat: i64, alert_lon: i64) -> (r: bool)
    ensures
        r == within_geofence(lat as int, lon as int, alert_lat as int, alert_lon as int),
{
    let lat_w: i128 = lat as i128;
    let lon_w: i128 = lon as i128;
    let alert_lat_w: i128 = alert_lat as i128;
    let alert_lon_w: i128 = alert_lon as i128;
    let half: i128 = GEOFENCE_HALF_WIDTH as i128;
    alert_lat_w - lat_w < half && lat_w - alert_lat_w < half && alert_lon_w - lon_w < half
        && lon_w - alert_lon_w < half
}

/// Decides the viewport predicate on concrete coordinates; the corners are
/// wide so that a caller can offset a coordinate without overflow.
pub fn check_inside_viewport(
    lat: i64,
    lon: i64,
    ne_lat: i128,
    ne_lon: i128,
    sw_lat: i128,
    sw_lon: i128,
) -> (r: bool)
    ensures
        r == inside_viewport(
            lat as int,
            lon as int,
            ne_lat as int,
            ne_lon as int,
            sw_lat as int,
            sw_lon as int,
        ),
{
    (lat as i128) < ne_lat && (lon as i128) < ne_lon && (lat as i128) > sw_lat && (lon as i128)
        > sw_lon
}

} // verus!
