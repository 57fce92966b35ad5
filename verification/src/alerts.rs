//! The alert entity: reference data, the persisted row, client input, and
//! the enriched representation returned to clients.
//!
//! State machine per alert: absent, created, updated any number of times,
//! then resolved or deleted.  Every transition out of `created` requires
//! the acting user's email to equal `created_by`; the ownership check
//! itself lives with the request handlers.

use vstd::prelude::*;

use crate::errors::ApiError;
use crate::errors::GeocodeFailure;
use crate::geo;
use crate::mapquest::failure_reason;
use crate::mapquest::GeocodeOutcome;
use crate::mapquest::GeocodeRequest;
use crate::mapquest::MapquestResult;
use crate::store::same_alert_types;
use crate::store::same_device_tokens;
use crate::store::same_locations;
use crate::store::same_tokens;
use crate::store::same_users;
use crate::store::unchanged;
use crate::store::Store;
use crate::user::has_user_with_email;
use crate::user::User;

verus! {

/// Read-only reference data: an alert kind and its severity.
#[derive(Debug)]
pub struct AlertType {
    pub name: String,
    pub alert_level: i16,
    pub created_at: i64,
    pub updated_at: i64,
}

impl Clone for AlertType {
    fn clone(&self) -> (r: Self)
        ensures
            r == *self,
    {
        AlertType {
            name: self.name.clone(),
            alert_level: self.alert_level,
            created_at: self.created_at,
            updated_at: self.updated_at,
        }
    }
}

/// The redacted creator block attached to an enriched alert: the name
/// always; email and phone only when the matching display flag is set.
#[derive(Debug)]
pub struct AlertUserInfo {
    pub name: String,
    pub email: Option<String>,
    pub phone: Option<String>,
}

impl Clone for AlertUserInfo {
    fn clone(&self) -> (r: Self)
        ensures
            r == *self,
    {
        AlertUserInfo {
            name: self.name.clone(),
            email: self.email.clone(),
            phone: self.phone.clone(),
        }
    }
}

/// A persisted alert.  Both `place` and the coordinates are always
/// populated: creation fails unless the missing half was resolved first.
#[derive(Debug)]
pub struct Alert {
    pub id: i64,
    pub alert_type: String,
    pub description: Option<String>,
    pub place: String,
    pub latitude: i64,
    pub longitude: i64,
    pub display_email: bool,
    pub display_phone: bool,
    pub track_location: bool,
    pub created_by: String,
    pub is_resolved: bool,
    pub created_at: i64,
    pub updated_at: i64,
}

impl Clone for Alert {
    fn clone(&self) -> (r: Self)
        ensures
            r == *self,
    {
        Alert {
            id: self.id,
            alert_type: self.alert_type.clone(),
            description: self.description.clone(),
            place: self.place.clone(),
            latitude: self.latitude,
            longitude: self.longitude,
            display_email: self.display_email,
            display_phone: self.display_phone,
            track_location: self.track_location,
            created_by: self.created_by.clone(),
            is_resolved: self.is_resolved,
            created_at: self.created_at,
            updated_at: self.updated_at,
        }
    }
}

/// What a client supplies to create or replace an alert.  Exactly one of
/// `place` and the coordinate pair must be present; the other half is
/// resolved through the geocoder before the row is persisted.
#[derive(Debug)]
pub struct AlertInput {
    pub alert_type: String,
    pub description: Option<String>,
    pub place: Option<String>,
    pub latitude: Option<i64>,
    pub longitude: Option<i64>,
    pub display_email: bool,
    pub display_phone: bool,
    pub track_location: bool,
}

impl Clone for AlertInput {
    fn clone(&self) -> (r: Self)
        ensures
            r == *self,
    {
        AlertInput {
            alert_type: self.alert_type.clone(),
            description: self.description.clone(),
            place: self.place.clone(),
            latitude: self.latitude,
            longitude: self.longitude,
            display_email: self.display_email,
            display_phone: self.display_phone,
            track_location: self.track_location,
        }
    }
}

/// A notification recipient: a device push token and the recipient's
/// last-known coordinates, from which the presentation layer derives the
/// informational distance shown in the message.
#[derive(Debug)]
pub struct AlertNotificationInfo {
    pub token: String,
    pub latitude: i64,
    pub longitude: i64,
}

impl Clone for AlertNotificationInfo {
    fn clone(&self) -> (r: Self)
        ensures
            r == *self,
    {
        AlertNotificationInfo {
            token: self.token.clone(),
            latitude: self.latitude,
            longitude: self.longitude,
        }
    }
}

/// An alert as returned to clients: the raw row plus denormalized
/// reference data and the redacted creator block.
#[derive(Debug)]
pub struct EnrichedAlert {
    pub alert: Alert,
    pub alert_type_obj: Option<AlertType>,
    pub user_info: Option<AlertUserInfo>,
}

/// Whether the client supplied the full coordinate pair.
pub open spec fn coords_given(input: AlertInput) -> bool {
    input.latitude is Some && input.longitude is Some
}

/// Whether the client supplied a place string.
pub open spec fn place_given(input: AlertInput) -> bool {
    input.place is Some
}

/// The input is rejected when neither or both of place and coordinates
/// are supplied: exactly one half must come from the client.
pub open spec fn input_ambiguous(input: AlertInput) -> bool {
    (coords_given(input) && place_given(input)) || (!coords_given(input) && !place_given(input))
}

/// The resolver's reply answers the lookup this input needs: an address
/// for a coordinate-only input, coordinates for a place-only input.
pub open spec fn outcome_matches(input: AlertInput, outcome: GeocodeOutcome) -> bool {
    if input_ambiguous(input) {
        true
    } else if coords_given(input) {
        outcome is Address
    } else {
        outcome is Coordinates
    }
}

/// What resolving the missing half of an input yields: the full (place,
/// latitude, longitude) triple, or the reason the mutation must abort.  No
/// store write happens when this is an error.
pub open spec fn fill_spec(input: AlertInput, outcome: GeocodeOutcome) -> Result<
    (Seq<char>, i64, i64),
    ApiError,
> {
    match (input.latitude, input.longitude) {
        (Some(lat), Some(lon)) => if place_given(input) {
            Err(ApiError::InputAmbiguous)
        } else {
            match outcome {
                GeocodeOutcome::Address(MapquestResult::Success(p)) => Ok((p@, lat, lon)),
                GeocodeOutcome::Address(f) => Err(
                    ApiError::GeocodeUnavailable { reason: failure_reason(f) },
                ),
                GeocodeOutcome::Coordinates(_) => Err(ApiError::InputAmbiguous),
            }
        },
        _ => match input.place {
            Some(place) => match outcome {
                GeocodeOutcome::Coordinates(MapquestResult::Success(c)) => Ok((place@, c.0, c.1)),
                GeocodeOutcome::Coordinates(f) => Err(
                    ApiError::GeocodeUnavailable { reason: failure_reason(f) },
                ),
                GeocodeOutcome::Address(_) => Err(ApiError::InputAmbiguous),
            },
            None => Err(ApiError::InputAmbiguous),
        },
    }
}

/// Whether some alert row carries this identifier.
pub open spec fn has_alert_with_id(alerts: Seq<Alert>, id: i64) -> bool {
    exists|i: int| 0 <= i < alerts.len() && #[trigger] alerts[i].id == id
}

/// The redacted creator block for an alert: name always; email and phone
/// only when the matching display flag is set.
pub open spec fn user_info_for(alert: Alert, user: User) -> AlertUserInfo {
    AlertUserInfo {
        name: user.name,
        email: if alert.display_email {
            Some(user.email)
        } else {
            None
        },
        phone: if alert.display_phone {
            user.phone
        } else {
            None
        },
    }
}

/// The enrichment attached to an alert is the one its row calls for: the
/// reference row of its alert type, and the redacted block of its creator,
/// each present exactly when the store holds the referenced row.
pub open spec fn enrichment_ok(store: Store, e: EnrichedAlert) -> bool {
    &&& match e.alert_type_obj {
        Some(t) => t.name@ == e.alert.alert_type@ && exists|i: int|
            0 <= i < store.alert_types@.len() && #[trigger] store.alert_types@[i] == t,
        None => forall|i: int|
            0 <= i < store.alert_types@.len() ==> #[trigger] store.alert_types@[i].name@
                != e.alert.alert_type@,
    }
    &&& match e.user_info {
        Some(info) => exists|i: int|
            0 <= i < store.users@.len() && #[trigger] store.users@[i].email@
                == e.alert.created_by@ && info == user_info_for(e.alert, store.users@[i]),
        None => !has_user_with_email(store.users@, e.alert.created_by@),
    }
}

/// What the tracked-location fan-out write leaves behind: every alert the
/// user created with `track_location` set carries the new coordinates and
/// the resolved place, every other alert is untouched, and the returned
/// rows are exactly the updated ones.
pub open spec fn tracking_update_ok(
    pre: Store,
    post: Store,
    updated: Seq<Alert>,
    user: User,
    addr: Seq<char>,
    location: crate::location::Location,
    now: i64,
) -> bool {
    &&& post.alerts@.len() == pre.alerts@.len()
    &&& forall|i: int|
        0 <= i < pre.alerts@.len() ==> if pre.alerts@[i].created_by@ == user.email@
            && pre.alerts@[i].track_location {
            (#[trigger] post.alerts@[i]) == (Alert {
                place: post.alerts@[i].place,
                latitude: location.latitude,
                longitude: location.longitude,
                updated_at: now,
                ..pre.alerts@[i]
            }) && post.alerts@[i].place@ == addr
        } else {
            post.alerts@[i] == pre.alerts@[i]
        }
    &&& forall|j: int|
        0 <= j < updated.len() ==> exists|i: int|
            0 <= i < post.alerts@.len() && (#[trigger] updated[j]) == post.alerts@[i]
                && updated[j].track_location && updated[j].created_by@ == user.email@
    &&& forall|i: int|
        (0 <= i < pre.alerts@.len() && (#[trigger] pre.alerts@[i]).created_by@ == user.email@
            && pre.alerts@[i].track_location) ==> exists|j: int|
            0 <= j < updated.len() && (#[trigger] updated[j]) == post.alerts@[i]
}

/// What a successful creation leaves behind: the new row, its fields from
/// the input and the resolved half, appended under a fresh identifier.
pub open spec fn alert_created_ok(
    pre: Store,
    post: Store,
    input: AlertInput,
    outcome: GeocodeOutcome,
    creator: Seq<char>,
    a: Alert,
    now: i64,
) -> bool {
    &&& fill_spec(input, outcome) == Ok::<(Seq<char>, i64, i64), ApiError>(
        (a.place@, a.latitude, a.longitude),
    )
    &&& pre.next_alert_id < i64::MAX
    &&& a.id == pre.next_alert_id
    &&& a.alert_type@ == input.alert_type@
    &&& a.description == input.description
    &&& a.display_email == input.display_email
    &&& a.display_phone == input.display_phone
    &&& a.track_location == input.track_location
    &&& a.created_by@ == creator
    &&& !a.is_resolved
    &&& a.created_at == now
    &&& a.updated_at == now
    &&& post.alerts@ == pre.alerts@.push(a)
    &&& post.next_alert_id == pre.next_alert_id + 1
}

/// What a successful replacement leaves behind: the row of that identifier
/// carries the input's fields and the resolved half; identity, creator,
/// resolution state and creation time are untouched.
pub open spec fn alert_updated_ok(
    pre: Store,
    post: Store,
    input: AlertInput,
    outcome: GeocodeOutcome,
    id: i64,
    a: Alert,
    now: i64,
) -> bool {
    &&& fill_spec(input, outcome) == Ok::<(Seq<char>, i64, i64), ApiError>(
        (a.place@, a.latitude, a.longitude),
    )
    &&& a.alert_type@ == input.alert_type@
    &&& a.description == input.description
    &&& exists|i: int|
        {
            &&& 0 <= i < pre.alerts@.len()
            &&& (#[trigger] pre.alerts@[i]).id == id
            &&& a == (Alert {
                alert_type: a.alert_type,
                description: a.description,
                place: a.place,
                latitude: a.latitude,
                longitude: a.longitude,
                display_email: input.display_email,
                display_phone: input.display_phone,
                track_location: input.track_location,
                updated_at: now,
                ..pre.alerts@[i]
            })
            &&& post.alerts@ == pre.alerts@.update(i, a)
        }
}

/// What marking an alert resolved leaves behind.
pub open spec fn alert_resolved_ok(pre: Store, post: Store, id: i64, a: Alert, now: i64) -> bool {
    exists|i: int|
        {
            &&& 0 <= i < pre.alerts@.len()
            &&& (#[trigger] pre.alerts@[i]).id == id
            &&& a == (Alert { is_resolved: true, updated_at: now, ..pre.alerts@[i] })
            &&& post.alerts@ == pre.alerts@.update(i, a)
        }
}

/// What deleting an alert leaves behind: the row is gone and `a` is its
/// pre-deletion value.
pub open spec fn alert_deleted_ok(pre: Store, post: Store, id: i64, a: Alert) -> bool {
    exists|i: int|
        {
            &&& 0 <= i < pre.alerts@.len()
            &&& (#[trigger] pre.alerts@[i]).id == id
            &&& a == pre.alerts@[i]
            &&& post.alerts@ == pre.alerts@.remove(i)
        }
}

/// Law: whenever resolution succeeds, exactly one half of the input was
/// authoritative and the other half came from the resolver.  A
/// coordinate-only input keeps its coordinates and takes the resolved
/// place; a place-only input keeps its place and takes the resolved
/// coordinates.  Either way both halves of the persisted row are
/// populated, after creation and after every update alike.
pub proof fn lemma_resolved_half_authoritative(
    input: AlertInput,
    outcome: GeocodeOutcome,
    place: Seq<char>,
    latitude: i64,
    longitude: i64,
)
    requires
        fill_spec(input, outcome) == Ok::<(Seq<char>, i64, i64), ApiError>(
            (place, latitude, longitude),
        ),
        outcome_matches(input, outcome),
    ensures
        !input_ambiguous(input),
        coords_given(input) ==> input.latitude == Some(latitude) && input.longitude == Some(
            longitude,
        ) && (outcome matches GeocodeOutcome::Address(m) && m matches MapquestResult::Success(p)
            && place == p@),
        !coords_given(input) ==> (input.place matches Some(p) && place == p@) && (outcome
            matches GeocodeOutcome::Coordinates(m) && m matches MapquestResult::Success(c)
            && latitude == c.0 && longitude == c.1),
{
}

/// The record is a genuine recipient: a device-token row and the matching
/// location row exist, the location lies inside the alert's geofence, and
/// the record carries that token and that location.
pub open spec fn notif_record_ok(store: Store, alert: Alert, rec: AlertNotificationInfo) -> bool {
    exists|i: int, k: int|
        {
            &&& 0 <= i < store.device_tokens@.len()
            &&& 0 <= k < store.locations@.len()
            &&& (#[trigger] store.device_tokens@[i]).user_id
                == (#[trigger] store.locations@[k]).user_id
            &&& rec.token@ == store.device_tokens@[i].token@
            &&& rec.latitude == store.locations@[k].latitude
            &&& rec.longitude == store.locations@[k].longitude
            &&& geo::within_geofence(
                store.locations@[k].latitude as int,
                store.locations@[k].longitude as int,
                alert.latitude as int,
                alert.longitude as int,
            )
        }
}

/// Some recipient record carries this device token.
pub open spec fn notif_covers(recs: Seq<AlertNotificationInfo>, token: Seq<char>) -> bool {
    exists|j: int| 0 <= j < recs.len() && (#[trigger] recs[j]).token@ == token
}

/// The row appears in the sequence.
pub open spec fn alert_among(alerts: Seq<Alert>, a: Alert) -> bool {
    exists|i: int| 0 <= i < alerts.len() && a == #[trigger] alerts[i]
}

impl AlertType {
    /// All alert-type reference rows.
    pub fn get_all(store: &Store) -> (r: Vec<AlertType>)
        ensures
            r@.len() == store.alert_types@.len(),
            forall|i: int| 0 <= i < r@.len() ==> r@[i] == store.alert_types@[i],
    {
        let mut result: Vec<AlertType> = Vec::new();
        let n = store.alert_types.len();
        let mut i: usize = 0;
        while i < n
            invariant
                n == store.alert_types@.len(),
                i <= n,
                result@.len() == i,
                forall|k: int| 0 <= k < i ==> result@[k] == store.alert_types@[k],
            decreases n - i,
    {
            result.push(store.alert_types[i].clone());
            i = i + 1;
        }
        result
    }

    /// The reference row of this name, if any; the name is the key.
    pub fn get_by_name(name: &String, store: &Store) -> (r: Option<AlertType>)
        ensures
            match r {
                Some(t) => t.name@ == name@ && exists|i: int|
                    0 <= i < store.alert_types@.len() && #[trigger] store.alert_types@[i] == t,
                None => forall|i: int|
                    0 <= i < store.alert_types@.len() ==> #[trigger] store.alert_types@[i].name@
                        != name@,
            },
    {
        let n = store.alert_types.len();
        let mut i: usize = 0;
        while i < n
            invariant
                n == store.alert_types@.len(),
                i <= n,
                forall|k: int| 0 <= k < i ==> #[trigger] store.alert_types@[k].name@ != name@,
            decreases n - i,
        {
            if store.alert_types[i].name == *name {
                return Some(store.alert_types[i].clone());
            }
            i = i + 1;
        }
        None
    }
}

impl Alert {
    /// The lookup this input still needs, or the rejection of an ambiguous
    /// input.  No store write has happened either way.
    pub fn geocode_request(input: &AlertInput) -> (r: Result<GeocodeRequest, ApiError>)
        ensures
            match r {
                Ok(req) => {
                    &&& !input_ambiguous(*input)
                    &&& match req {
                        GeocodeRequest::Reverse { latitude, longitude } => coords_given(*input)
                            && input.latitude == Some(latitude) && input.longitude == Some(
                            longitude,
                        ),
                        GeocodeRequest::Forward { place } => !coords_given(*input) && place_given(
                            *input,
                        ) && input.place == Some(place),
                    }
                },
                Err(e) => e == ApiError::InputAmbiguous && input_ambiguous(*input),
            },
    {
        match (&input.latitude, &input.longitude) {
            (Some(lat), Some(lon)) => {
                if input.place.is_some() {
                    Err(ApiError::InputAmbiguous)
                } else {
                    Ok(GeocodeRequest::Reverse { latitude: *lat, longitude: *lon })
                }
            },
            _ => {
                match &input.place {
                    Some(place) => Ok(GeocodeRequest::Forward { place: place.clone() }),
                    None => Err(ApiError::InputAmbiguous),
                }
            },
        }
    }

    /// Resolves the missing half of an input from the resolver's reply,
    /// yielding the full (place, latitude, longitude) triple.
    pub fn fill_missing_info(input: &AlertInput, outcome: &GeocodeOutcome) -> (r: Result<
        (String, i64, i64),
        ApiError,
    >)
        requires
            outcome_matches(*input, *outcome),
        ensures
            match r {
                Ok(t) => fill_spec(*input, *outcome) == Ok::<(Seq<char>, i64, i64), ApiError>(
                    (t.0@, t.1, t.2),
                ),
                Err(e) => fill_spec(*input, *outcome) == Err::<(Seq<char>, i64, i64), ApiError>(e),
            },
    {
        match (&input.latitude, &input.longitude) {
            (Some(lat), Some(lon)) => {
                if input.place.is_some() {
                    return Err(ApiError::InputAmbiguous);
                }
                match outcome {
                    GeocodeOutcome::Address(MapquestResult::Success(p)) => Ok(
                        (p.clone(), *lat, *lon),
                    ),
                    GeocodeOutcome::Address(MapquestResult::NoAPIKey) => Err(
                        ApiError::GeocodeUnavailable { reason: GeocodeFailure::NoApiKey },
                    ),
                    GeocodeOutcome::Address(MapquestResult::NoResult) => Err(
                        ApiError::GeocodeUnavailable { reason: GeocodeFailure::NoResult },
                    ),
                    GeocodeOutcome::Address(MapquestResult::NoValue) => Err(
                        ApiError::GeocodeUnavailable { reason: GeocodeFailure::NoValue },
                    ),
                    GeocodeOutcome::Coordinates(_) => Err(ApiError::InputAmbiguous),
                }
            },
            _ => {
                let place = match &input.place {
                    Some(p) => p,
                    None => {
                        return Err(ApiError::InputAmbiguous);
                    },
                };
                match outcome {
                    GeocodeOutcome::Coordinates(MapquestResult::Success(c)) => Ok(
                        (place.clone(), c.0, c.1),
                    ),
                    GeocodeOutcome::Coordinates(MapquestResult::NoAPIKey) => Err(
                        ApiError::GeocodeUnavailable { reason: GeocodeFailure::NoApiKey },
                    ),
                    GeocodeOutcome::Coordinates(MapquestResult::NoResult) => Err(
                        ApiError::GeocodeUnavailable { reason: GeocodeFailure::NoResult },
                    ),
                    GeocodeOutcome::Coordinates(MapquestResult::NoValue) => Err(
                        ApiError::GeocodeUnavailable { reason: GeocodeFailure::NoValue },
                    ),
                    GeocodeOutcome::Address(_) => Err(ApiError::InputAmbiguous),
                }
            },
        }
    }

    /// Persists a new alert for its creator, once the missing half of the
    /// input is resolved.  An ambiguous input or a failed resolution aborts
    /// with no store write; a persisted row always carries both a place
    /// and coordinates.
    pub fn init(
        input: &AlertInput,
        created_by: &String,
        outcome: &GeocodeOutcome,
        store: &mut Store,
        now: i64,
    ) -> (r: Result<Alert, ApiError>)
        requires
            old(store).wf(),
            outcome_matches(*input, *outcome),
        ensures
            final(store).wf(),
            same_users(*old(store), *final(store)),
            same_locations(*old(store), *final(store)),
            same_alert_types(*old(store), *final(store)),
            same_device_tokens(*old(store), *final(store)),
            same_tokens(*old(store), *final(store)),
            r == Err::<Alert, ApiError>(ApiError::InputAmbiguous) <==> input_ambiguous(*input),
            match r {
                Ok(a) => alert_created_ok(
                    *old(store),
                    *final(store),
                    *input,
                    *outcome,
                    created_by@,
                    a,
                    now,
                ),
                Err(e) => {
                    &&& unchanged(*old(store), *final(store))
                    &&& (fill_spec(*input, *outcome) matches Err(fe) ==> e == fe)
                    &&& (fill_spec(*input, *outcome) is Ok ==> e == ApiError::StoreUnavailable
                        && old(store).next_alert_id == i64::MAX)
                },
            },
    {
        let resolved = match Self::fill_missing_info(input, outcome) {
            Ok(t) => t,
            Err(e) => {
                return Err(e);
            },
        };
        if store.next_alert_id == i64::MAX {
            return Err(ApiError::StoreUnavailable);
        }
        let alert = Alert {
            id: store.next_alert_id,
            alert_type: input.alert_type.clone(),
            description: input.description.clone(),
            place: resolved.0,
            latitude: resolved.1,
            longitude: resolved.2,
            display_email: input.display_email,
            display_phone: input.display_phone,
            track_location: input.track_location,
            created_by: created_by.clone(),
            is_resolved: false,
            created_at: now,
            updated_at: now,
        };
        store.next_alert_id = store.next_alert_id + 1;
        store.alerts.push(alert.clone());
        Ok(alert)
    }

    /// The alert row of this identifier, if any.
    pub fn get_by_id(id: i64, store: &Store) -> (r: Option<Alert>)
        ensures
            match r {
                Some(a) => a.id == id && exists|i: int|
                    0 <= i < store.alerts@.len() && #[trigger] store.alerts@[i] == a,
                None => !has_alert_with_id(store.alerts@, id),
            },
    {
        let n = store.alerts.len();
        let mut i: usize = 0;
        while i < n
            invariant
                n == store.alerts@.len(),
                i <= n,
                forall|k: int| 0 <= k < i ==> #[trigger] store.alerts@[k].id != id,
            decreases n - i,
        {
            if store.alerts[i].id == id {
                return Some(store.alerts[i].clone());
            }
            i = i + 1;
        }
        None
    }

    /// Replaces this alert's client-supplied fields, re-resolving the
    /// missing half of the new input exactly as creation does.  Identity,
    /// creator, resolution state and creation time are untouched.
    pub fn update(
        &self,
        input: &AlertInput,
        outcome: &GeocodeOutcome,
        store: &mut Store,
        now: i64,
    ) -> (r: Result<Alert, ApiError>)
        requires
            old(store).wf(),
            outcome_matches(*input, *outcome),
        ensures
            final(store).wf(),
            same_users(*old(store), *final(store)),
            same_locations(*old(store), *final(store)),
            same_alert_types(*old(store), *final(store)),
            same_device_tokens(*old(store), *final(store)),
            same_tokens(*old(store), *final(store)),
            final(store).next_alert_id == old(store).next_alert_id,
            r == Err::<Alert, ApiError>(ApiError::InputAmbiguous) <==> input_ambiguous(*input),
            match r {
                Ok(a) => alert_updated_ok(
                    *old(store),
                    *final(store),
                    *input,
                    *outcome,
                    self.id,
                    a,
                    now,
                ),
                Err(e) => {
                    &&& unchanged(*old(store), *final(store))
                    &&& (fill_spec(*input, *outcome) matches Err(fe) ==> e == fe)
                    &&& (fill_spec(*input, *outcome) is Ok ==> e == ApiError::AlertNotFound
                        && !has_alert_with_id(old(store).alerts@, self.id))
                },
            },
    {
        let resolved = match Self::fill_missing_info(input, outcome) {
            Ok(t) => t,
            Err(e) => {
                return Err(e);
            },
        };
        let ghost pre = *store;
        let n = store.alerts.len();
        let mut i: usize = 0;
        while i < n
            invariant
                *store == pre,
                pre == *old(store),
                pre.wf(),
                outcome_matches(*input, *outcome),
                fill_spec(*input, *outcome) == Ok::<(Seq<char>, i64, i64), ApiError>(
                    (resolved.0@, resolved.1, resolved.2),
                ),
                !input_ambiguous(*input),
                n == store.alerts@.len(),
                i <= n,
                forall|k: int| 0 <= k < i ==> #[trigger] store.alerts@[k].id != self.id,
            decreases n - i,
        {
            if store.alerts[i].id == self.id {
                let mut updated = store.alerts[i].clone();
                updated.alert_type = input.alert_type.clone();
                updated.description = input.description.clone();
                updated.place = resolved.0;
                updated.latitude = resolved.1;
                updated.longitude = resolved.2;
                updated.display_email = input.display_email;
                updated.display_phone = input.display_phone;
                updated.track_location = input.track_location;
                updated.updated_at = now;
                store.alerts.set(i, updated.clone());
                proof {
                    assert(pre.alerts@[i as int].id == self.id);
                    assert(store.alerts@ =~= pre.alerts@.update(
                        i as int,
                        store.alerts@[i as int],
                    ));
                }
                return Ok(updated);
            }
            i = i + 1;
        }
        Err(ApiError::AlertNotFound)
    }

    /// Marks this alert resolved; nothing else changes.
    pub fn resolve(&self, store: &mut Store, now: i64) -> (r: Result<Alert, ApiError>)
        requires
            old(store).wf(),
        ensures
            final(store).wf(),
            same_users(*old(store), *final(store)),
            same_locations(*old(store), *final(store)),
            same_alert_types(*old(store), *final(store)),
            same_device_tokens(*old(store), *final(store)),
            same_tokens(*old(store), *final(store)),
            final(store).next_alert_id == old(store).next_alert_id,
            match r {
                Ok(a) => alert_resolved_ok(*old(store), *final(store), self.id, a, now),
                Err(e) => {
                    &&& e == ApiError::AlertNotFound
                    &&& unchanged(*old(store), *final(store))
                    &&& !has_alert_with_id(old(store).alerts@, self.id)
                },
            },
    {
        let ghost pre = *store;
        let n = store.alerts.len();
        let mut i: usize = 0;
        while i < n
            invariant
                *store == pre,
                pre == *old(store),
                pre.wf(),
                n == store.alerts@.len(),
                i <= n,
                forall|k: int| 0 <= k < i ==> #[trigger] store.alerts@[k].id != self.id,
            decreases n - i,
        {
            if store.alerts[i].id == self.id {
                let mut updated = store.alerts[i].clone();
                updated.is_resolved = true;
                updated.updated_at = now;
                store.alerts.set(i, updated.clone());
                return Ok(updated);
            }
            i = i + 1;
        }
        Err(ApiError::AlertNotFound)
    }

    /// Removes this alert and returns the removed row, so a caller can
    /// still answer with the pre-deletion snapshot.
    pub fn delete(&self, store: &mut Store) -> (r: Result<Alert, ApiError>)
        requires
            old(store).wf(),
        ensures
            final(store).wf(),
            same_users(*old(store), *final(store)),
            same_locations(*old(store), *final(store)),
            same_alert_types(*old(store), *final(store)),
            same_device_tokens(*old(store), *final(store)),
            same_tokens(*old(store), *final(store)),
            final(store).next_alert_id == old(store).next_alert_id,
            match r {
                Ok(a) => alert_deleted_ok(*old(store), *final(store), self.id, a),
                Err(e) => {
                    &&& e == ApiError::AlertNotFound
                    &&& unchanged(*old(store), *final(store))
                    &&& !has_alert_with_id(old(store).alerts@, self.id)
                },
            },
    {
        let ghost pre = *store;
        let n = store.alerts.len();
        let mut i: usize = 0;
        while i < n
            invariant
                *store == pre,
                pre == *old(store),
                pre.wf(),
                n == store.alerts@.len(),
                i <= n,
                forall|k: int| 0 <= k < i ==> #[trigger] store.alerts@[k].id != self.id,
            decreases n - i,
        {
            if store.alerts[i].id == self.id {
                let removed = store.alerts.remove(i);
                proof {
                    assert forall|a: int, b: int|
                        0 <= a < b < store.alerts@.len() implies #[trigger] store.alerts@[a].id
                        != #[trigger] store.alerts@[b].id by {
                        let aa = if a < i { a } else { a + 1 };
                        let bb = if b < i { b } else { b + 1 };
                        assert(store.alerts@[a] == pre.alerts@[aa] && store.alerts@[b]
                            == pre.alerts@[bb]);
                    }
                    assert forall|a: int| 0 <= a < store.alerts@.len() implies 0
                        < (#[trigger] store.alerts@[a].id) < store.next_alert_id by {
                        let aa = if a < i { a } else { a + 1 };
                        assert(store.alerts@[a] == pre.alerts@[aa]);
                    }
                }
                return Ok(removed);
            }
            i = i + 1;
        }
        Err(ApiError::AlertNotFound)
    }

    /// The pure enrichment transform: attaches the alert-type reference
    /// row and the redacted creator block to a raw row.
    pub fn populate(&self, store: &Store) -> (r: EnrichedAlert)
        ensures
            r.alert == *self,
            enrichment_ok(*store, r),
    {
        let alert_type_obj = AlertType::get_by_name(&self.alert_type, store);
        let user_info = match User::from_email(&self.created_by, store) {
            Some(u) => Some(
                AlertUserInfo {
                    name: u.name,
                    email: if self.display_email {
                        Some(u.email)
                    } else {
                        None
                    },
                    phone: if self.display_phone {
                        u.phone
                    } else {
                        None
                    },
                },
            ),
            None => None,
        };
        EnrichedAlert { alert: self.clone(), alert_type_obj, user_info }
    }

    /// Geofenced recipient discovery: exactly the device push tokens whose
    /// user's last-known location lies strictly inside the square geofence
    /// around this alert, each carrying that location, from which a caller
    /// derives the informational distance.
    pub fn get_notification_info(&self, store: &Store) -> (r: Vec<AlertNotificationInfo>)
        requires
            store.wf(),
        ensures
            r@.len() <= store.device_tokens@.len(),
            forall|j: int|
                0 <= j < r@.len() ==> notif_record_ok(*store, *self, #[trigger] r@[j]),
            forall|i: int, k: int|
                (0 <= i < store.device_tokens@.len() && 0 <= k < store.locations@.len()
                    && (#[trigger] store.device_tokens@[i]).user_id
                    == (#[trigger] store.locations@[k]).user_id && geo::within_geofence(
                    store.locations@[k].latitude as int,
                    store.locations@[k].longitude as int,
                    self.latitude as int,
                    self.longitude as int,
                )) ==> notif_covers(r@, store.device_tokens@[i].token@),
    {
        let mut result: Vec<AlertNotificationInfo> = Vec::new();
        let n = store.device_tokens.len();
        let mut i: usize = 0;
        while i < n
            invariant
                store.wf(),
                n == store.device_tokens@.len(),
                i <= n,
                result@.len() <= i,
                forall|j: int|
                    0 <= j < result@.len() ==> notif_record_ok(*store, *self, #[trigger] result@[j]),
                forall|ii: int, k: int|
                    (0 <= ii < i && 0 <= k < store.locations@.len()
                        && (#[trigger] store.device_tokens@[ii]).user_id
                        == (#[trigger] store.locations@[k]).user_id && geo::within_geofence(
                        store.locations@[k].latitude as int,
                        store.locations@[k].longitude as int,
                        self.latitude as int,
                        self.longitude as int,
                    )) ==> notif_covers(result@, store.device_tokens@[ii].token@),
            decreases n - i,
        {
            let dt_user = store.device_tokens[i].user_id;
            match crate::location::find_by_user(dt_user, store) {
                Some(l) => {
                    let qualifies = geo::check_within_geofence(
                        l.latitude,
                        l.longitude,
                        self.latitude,
                        self.longitude,
                    );
                    let ghost prev = result@;
                    if qualifies {
                        result.push(
                            AlertNotificationInfo {
                                token: store.device_tokens[i].token.clone(),
                                latitude: l.latitude,
                                longitude: l.longitude,
                            },
                        );
                    }
                    proof {
                        let li = choose|k: int|
                            0 <= k < store.locations@.len() && #[trigger] store.locations@[k] == l;
                        assert forall|k: int|
                            0 <= k < store.locations@.len()
                                && (#[trigger] store.locations@[k]).user_id == dt_user
                            implies store.locations@[k] == l by {
                            if k != li {
                                assert(store.locations@[k].user_id
                                    != store.locations@[li].user_id);
                            }
                        }
                        if qualifies {
                            let newj = prev.len() as int;
                            assert(result@ == prev.push(result@[newj]));
                            assert(notif_record_ok(*store, *self, result@[newj])) by {
                                assert(0 <= (i as int) < store.device_tokens@.len() && 0 <= li
                                    < store.locations@.len()
                                    && store.device_tokens@[i as int].user_id
                                    == store.locations@[li].user_id && result@[newj].token@
                                    == store.device_tokens@[i as int].token@
                                    && result@[newj].latitude == store.locations@[li].latitude
                                    && result@[newj].longitude == store.locations@[li].longitude);
                            }
                            assert(notif_covers(result@, store.device_tokens@[i as int].token@))
                                by {
                                assert(result@[newj].token@
                                    == store.device_tokens@[i as int].token@);
                            }
                            assert forall|j: int| 0 <= j < result@.len() implies notif_record_ok(
                                *store,
                                *self,
                                #[trigger] result@[j],
                            ) by {
                                if j < newj {
                                    assert(result@[j] == prev[j]);
                                }
                            }
                            assert forall|t: Seq<char>| notif_covers(prev, t) implies notif_covers(
                                result@,
                                t,
                            ) by {
                                let j = choose|j: int|
                                    0 <= j < prev.len() && (#[trigger] prev[j]).token@ == t;
                                assert(result@[j].token@ == t);
                            }
                        }
                    }
                },
                None => {
                },
            }
            i = i + 1;
        }
        result
    }

    /// The alerts whose coordinates lie strictly inside a rectangular
    /// viewport; the read path of map clients, independent of the
    /// notification fanout.
    pub fn get_by_viewport(
        ne_lat: i128,
        ne_lng: i128,
        sw_lat: i128,
        sw_lng: i128,
        store: &Store,
    ) -> (r: Vec<Alert>)
        ensures
            forall|j: int| 0 <= j < r@.len() ==> alert_among(store.alerts@, #[trigger] r@[j]),
            forall|j: int|
                0 <= j < r@.len() ==> geo::inside_viewport(
                    (#[trigger] r@[j]).latitude as int,
                    r@[j].longitude as int,
                    ne_lat as int,
                    ne_lng as int,
                    sw_lat as int,
                    sw_lng as int,
                ),
            forall|i: int|
                (0 <= i < store.alerts@.len() && geo::inside_viewport(
                    (#[trigger] store.alerts@[i]).latitude as int,
                    store.alerts@[i].longitude as int,
                    ne_lat as int,
                    ne_lng as int,
                    sw_lat as int,
                    sw_lng as int,
                )) ==> alert_among(r@, store.alerts@[i]),
    {
        let mut result: Vec<Alert> = Vec::new();
        let n = store.alerts.len();
        let mut i: usize = 0;
        while i < n
            invariant
                n == store.alerts@.len(),
                i <= n,
                forall|j: int|
                    0 <= j < result@.len() ==> alert_among(store.alerts@, #[trigger] result@[j]),
                forall|j: int|
                    0 <= j < result@.len() ==> geo::inside_viewport(
                        (#[trigger] result@[j]).latitude as int,
                        result@[j].longitude as int,
                        ne_lat as int,
                        ne_lng as int,
                        sw_lat as int,
                        sw_lng as int,
                    ),
                forall|ii: int|
                    (0 <= ii < i && geo::inside_viewport(
                        (#[trigger] store.alerts@[ii]).latitude as int,
                        store.alerts@[ii].longitude as int,
                        ne_lat as int,
                        ne_lng as int,
                        sw_lat as int,
                        sw_lng as int,
                    )) ==> alert_among(result@, store.alerts@[ii]),
            decreases n - i,
        {
            let ghost prev = result@;
            if geo::check_inside_viewport(
                store.alerts[i].latitude,
                store.alerts[i].longitude,
                ne_lat,
                ne_lng,
                sw_lat,
                sw_lng,
            ) {
                result.push(store.alerts[i].clone());
                proof {
                    let newj = prev.len() as int;
                    assert(result@ == prev.push(result@[newj]));
                    assert(result@[newj] == store.alerts@[i as int]);
                    assert(alert_among(store.alerts@, result@[newj]));
                    assert(alert_among(result@, store.alerts@[i as int]));
                    assert forall|j: int| 0 <= j < result@.len() implies alert_among(
                        store.alerts@,
                        #[trigger] result@[j],
                    ) && geo::inside_viewport(
                        result@[j].latitude as int,
                        result@[j].longitude as int,
                        ne_lat as int,
                        ne_lng as int,
                        sw_lat as int,
                        sw_lng as int,
                    ) by {
                        if j < newj {
                            assert(result@[j] == prev[j]);
                        }
                    }
                    assert forall|a: Alert| alert_among(prev, a) implies alert_among(
                        result@,
                        a,
                    ) by {
                        let j = choose|j: int| 0 <= j < prev.len() && a == #[trigger] prev[j];
                        assert(a == result@[j]);
                    }
                }
            }
            i = i + 1;
        }
        result
    }

    /// The fan-out write a location upsert triggers: when the location's
    /// user exists and the reverse lookup succeeded, every alert the user
    /// created with `track_location` set follows the new location; the
    /// updated rows are returned.  An unknown user or a failed lookup
    /// changes nothing.
    pub fn update_tracking_alert(
        location: &crate::location::Location,
        outcome: &MapquestResult<String>,
        store: &mut Store,
        now: i64,
    ) -> (r: Vec<Alert>)
        requires
            old(store).wf(),
        ensures
            final(store).wf(),
            same_users(*old(store), *final(store)),
            same_locations(*old(store), *final(store)),
            same_alert_types(*old(store), *final(store)),
            same_device_tokens(*old(store), *final(store)),
            same_tokens(*old(store), *final(store)),
            final(store).next_alert_id == old(store).next_alert_id,
            (!crate::user::has_user_with_id(old(store).users@, location.user_id) || !(*outcome
                is Success)) ==> unchanged(*old(store), *final(store)) && r@.len() == 0,
            forall|ui: int|
                (0 <= ui < old(store).users@.len() && (#[trigger] old(store).users@[ui]).id
                    == location.user_id) ==> (*outcome matches MapquestResult::Success(a)
                    ==> tracking_update_ok(
                    *old(store),
                    *final(store),
                    r@,
                    old(store).users@[ui],
                    a@,
                    *location,
                    now,
                )),
    {
        let user = match User::from_id(location.user_id, store) {
            Some(u) => u,
            None => {
                return Vec::new();
            },
        };
        let address = match outcome {
            MapquestResult::Success(a) => a,
            _ => {
                return Vec::new();
            },
        };
        let ghost pre = *store;
        let mut result: Vec<Alert> = Vec::new();
        let n = store.alerts.len();
        let mut i: usize = 0;
        while i < n
            invariant
                pre == *old(store),
                pre.wf(),
                store.users@ == pre.users@,
                store.locations@ == pre.locations@,
                store.alert_types@ == pre.alert_types@,
                store.device_tokens@ == pre.device_tokens@,
                store.tokens@ == pre.tokens@,
                store.next_user_id == pre.next_user_id,
                store.next_alert_id == pre.next_alert_id,
                n == store.alerts@.len(),
                n == pre.alerts@.len(),
                i <= n,
                forall|k: int|
                    i <= k < n ==> #[trigger] store.alerts@[k] == pre.alerts@[k],
                forall|k: int|
                    0 <= k < i ==> if pre.alerts@[k].created_by@ == user.email@
                        && pre.alerts@[k].track_location {
                        #[trigger] store.alerts@[k] == (Alert {
                            place: store.alerts@[k].place,
                            latitude: location.latitude,
                            longitude: location.longitude,
                            updated_at: now,
                            ..pre.alerts@[k]
                        }) && store.alerts@[k].place@ == address@
                    } else {
                        store.alerts@[k] == pre.alerts@[k]
                    },
                forall|j: int|
                    0 <= j < result@.len() ==> exists|k: int|
                        0 <= k < i && #[trigger] result@[j] == store.alerts@[k]
                            && result@[j].track_location && result@[j].created_by@ == user.email@,
                forall|k: int|
                    (0 <= k < i && (#[trigger] pre.alerts@[k]).created_by@ == user.email@
                        && pre.alerts@[k].track_location) ==> exists|j: int|
                        0 <= j < result@.len() && #[trigger] result@[j] == store.alerts@[k],
            decreases n - i,
        {
            let is_tracked = store.alerts[i].track_location && store.alerts[i].created_by
                == user.email;
            if is_tracked {
                let ghost prev_result = result@;
                let ghost prev_alerts = store.alerts@;
                let mut updated = store.alerts[i].clone();
                updated.latitude = location.latitude;
                updated.longitude = location.longitude;
                updated.place = address.clone();
                updated.updated_at = now;
                store.alerts.set(i, updated.clone());
                result.push(updated);
                proof {
                    let newj = prev_result.len() as int;
                    assert(result@ == prev_result.push(result@[newj]));
                    assert(result@[newj] == store.alerts@[i as int]);
                    assert forall|j: int| 0 <= j < result@.len() implies exists|k: int|
                        0 <= k < i + 1 && (#[trigger] result@[j]) == store.alerts@[k]
                            && result@[j].track_location && result@[j].created_by@
                            == user.email@ by {
                        if j < newj {
                            assert(result@[j] == prev_result[j]);
                            let k = choose|k: int|
                                0 <= k < i && (#[trigger] prev_result[j]) == prev_alerts[k]
                                    && prev_result[j].track_location
                                    && prev_result[j].created_by@ == user.email@;
                            assert(store.alerts@[k] == prev_alerts[k]);
                        } else {
                            assert(result@[j] == store.alerts@[i as int]);
                        }
                    }
                    assert forall|k: int|
                        0 <= k < i + 1 && (#[trigger] pre.alerts@[k]).created_by@ == user.email@
                            && pre.alerts@[k].track_location implies exists|j: int|
                        0 <= j < result@.len() && #[trigger] result@[j] == store.alerts@[k] by {
                        if k < i {
                            let j = choose|j: int|
                                0 <= j < prev_result.len() && #[trigger] prev_result[j]
                                    == prev_alerts[k];
                            assert(result@[j] == store.alerts@[k]);
                        } else {
                            assert(result@[newj] == store.alerts@[k]);
                        }
                    }
                }
            }
            i = i + 1;
        }
        proof {
            assert forall|a: int, b: int|
                0 <= a < b < store.alerts@.len() implies #[trigger] store.alerts@[a].id
                != #[trigger] store.alerts@[b].id by {
                assert(store.alerts@[a].id == pre.alerts@[a].id && store.alerts@[b].id
                    == pre.alerts@[b].id);
            }
            assert forall|a: int| 0 <= a < store.alerts@.len() implies 0
                < (#[trigger] store.alerts@[a].id) < store.next_alert_id by {
                assert(store.alerts@[a].id == pre.alerts@[a].id);
            }
        }
        result
    }
}

} // verus!
