//! Geocoding resolver: bidirectional address / coordinate lookup against
//! an external service.
//!
//! The library builds the request URLs and interprets the fields a caller
//! extracted from the service's reply; the HTTP round trip itself is the
//! caller's.  Every lookup has one of four outcomes, and a non-success
//! outcome is always surfaced with its reason, never defaulted.

use vstd::prelude::*;

use crate::digits::micro_coord_string;
use crate::digits::micro_string;
use crate::errors::GeocodeFailure;

verus! {

/// Outcome of one geocoding lookup.
#[derive(Debug)]
pub enum MapquestResult<T> {
    /// The service is not configured (no API key) or unreachable.
    NoAPIKey,
    /// The query matched nothing.
    NoResult,
    /// The query matched, but the match held no usable field.
    NoValue,
    /// The closest match's value.
    Success(T),
}

/// The lookup an alert mutation still needs before it can persist: the
/// half of {place, coordinates} that the client left out.
#[derive(Debug)]
pub enum GeocodeRequest {
    /// Resolve a place string from these coordinates.
    Reverse { latitude: i64, longitude: i64 },
    /// Resolve coordinates from this place string.
    Forward { place: String },
}

/// The resolver's reply to a [`GeocodeRequest`].
#[derive(Debug)]
pub enum GeocodeOutcome {
    /// Reply to a reverse lookup: the place string.
    Address(MapquestResult<String>),
    /// Reply to a forward lookup: the coordinates, in microdegrees.
    Coordinates(MapquestResult<(i64, i64)>),
}

/// The textual fields of the closest match of a reverse lookup.
#[derive(Debug)]
pub struct PlaceParts {
    pub street: String,
    pub city: String,
    pub state: String,
    pub country: String,
}

/// The reason a failed lookup carries.
pub open spec fn failure_reason<T>(m: MapquestResult<T>) -> GeocodeFailure {
    match m {
        MapquestResult::NoAPIKey => GeocodeFailure::NoApiKey,
        MapquestResult::NoResult => GeocodeFailure::NoResult,
        MapquestResult::NoValue => GeocodeFailure::NoValue,
        MapquestResult::Success(_) => GeocodeFailure::NoValue,
    }
}

/// What `urlencoding::encode` returns: the percent-encoding of the string.
pub uninterp spec fn url_encoded(s: Seq<char>) -> Seq<char>;

/// Relies on `urlencoding::encode`: percent-encodes everything but
/// unreserved ASCII; a pure function of the string.
#[verifier::external_body]
fn url_encode(s: &str) -> (r: String)
    ensures
        r@ == url_encoded(s@),
        s@.len() == 0 ==> r@.len() == 0,
{
    urlencoding::encode(s).into_owned()
}

/// The human-readable place string formatted from the closest match:
/// street, city, state and country, comma-separated.
pub open spec fn place_string(p: PlaceParts) -> Seq<char> {
    p.street@ + ", "@ + p.city@ + ", "@ + p.state@ + ", "@ + p.country@
}

/// Formats the closest match of a reverse lookup as one place string.
pub fn format_place(p: &PlaceParts) -> (r: String)
    ensures
        r@ == place_string(*p),
{
    let mut s = p.street.clone();
    s.append(", ");
    s.append(p.city.as_str());
    s.append(", ");
    s.append(p.state.as_str());
    s.append(", ");
    s.append(p.country.as_str());
    proof {
        assert(s@ =~= place_string(*p));
    }
    s
}

/// Interprets a reverse lookup's extracted reply: formats the closest
/// match as a place string and passes a failed lookup through with its
/// reason.
pub fn get_address(reply: &MapquestResult<PlaceParts>) -> (r: MapquestResult<String>)
    ensures
        match *reply {
            MapquestResult::Success(p) => r matches MapquestResult::Success(s) && s@
                == place_string(p),
            MapquestResult::NoAPIKey => r is NoAPIKey,
            MapquestResult::NoResult => r is NoResult,
            MapquestResult::NoValue => r is NoValue,
        },
{
    match reply {
        MapquestResult::Success(p) => MapquestResult::Success(format_place(p)),
        MapquestResult::NoAPIKey => MapquestResult::NoAPIKey,
        MapquestResult::NoResult => MapquestResult::NoResult,
        MapquestResult::NoValue => MapquestResult::NoValue,
    }
}

/// The reverse-lookup request URL for these coordinates.
pub open spec fn reverse_url_spec(api_key: Seq<char>, lat: int, lon: int) -> Seq<char> {
    "http://www.mapquestapi.com/geocoding/v1/reverse?key="@ + api_key + "&location="@
        + micro_string(lat) + ","@ + micro_string(lon)
}

/// Builds the reverse-lookup request URL (coordinates to address).
pub fn get_address_url(api_key: &String, latitude: i64, longitude: i64) -> (r: String)
    requires
        latitude != i64::MIN,
        longitude != i64::MIN,
    ensures
        r@ == reverse_url_spec(api_key@, latitude as int, longitude as int),
{
    let mut s: String = "http://www.mapquestapi.com/geocoding/v1/reverse?key=".to_owned();
    s.append(api_key.as_str());
    s.append("&location=");
    s.append(micro_coord_string(latitude).as_str());
    s.append(",");
    s.append(micro_coord_string(longitude).as_str());
    proof {
        assert(s@ =~= reverse_url_spec(api_key@, latitude as int, longitude as int));
    }
    s
}

/// The forward-lookup request URL for this place string.
pub open spec fn forward_url_spec(api_key: Seq<char>, place: Seq<char>) -> Seq<char> {
    "http://www.mapquestapi.com/geocoding/v1/address?key="@ + api_key + "&location="@
        + url_encoded(place)
}

/// Builds the forward-lookup request URL (address to coordinates); the
/// place string is percent-encoded.
pub fn get_location_url(api_key: &String, place: &String) -> (r: String)
    ensures
        r@ == forward_url_spec(api_key@, place@),
{
    let mut s: String = "http://www.mapquestapi.com/geocoding/v1/address?key=".to_owned();
    s.append(api_key.as_str());
    s.append("&location=");
    s.append(url_encode(place.as_str()).as_str());
    proof {
        assert(s@ =~= forward_url_spec(api_key@, place@));
    }
    s
}

} // verus!
