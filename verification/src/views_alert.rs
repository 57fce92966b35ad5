//! Alert request handlers: the transactional lifecycle, ownership-checked
//! against the creator, plus the viewport read path.
//!
//! Creation and update take the geocode resolver's reply as a value; the
//! caller performs the round trip between [`crate::alerts::Alert::geocode_request`]
//! and the handler.  Recipient discovery runs inside the mutating request;
//! the dispatch itself, and its pacing, happen after the caller has
//! committed, so a failed notification never affects the mutation.

use vstd::prelude::*;

use crate::alerts::alert_among;
use crate::alerts::alert_created_ok;
use crate::alerts::alert_deleted_ok;
use crate::alerts::alert_resolved_ok;
use crate::alerts::alert_updated_ok;
use crate::alerts::enrichment_ok;
use crate::alerts::fill_spec;
use crate::alerts::has_alert_with_id;
use crate::alerts::input_ambiguous;
use crate::alerts::notif_covers;
use crate::alerts::notif_record_ok;
use crate::alerts::outcome_matches;
use crate::alerts::Alert;
use crate::alerts::AlertInput;
use crate::alerts::AlertNotificationInfo;
use crate::alerts::AlertType;
use crate::alerts::EnrichedAlert;
use crate::auth::validate_token_spec;
use crate::auth::AuthConfig;
use crate::auth::BearerToken;
use crate::auth::TokenType;
use crate::errors::ApiError;
use crate::geo;
use crate::mapquest::GeocodeOutcome;
use crate::request::session_ok;
use crate::store::same_alert_types;
use crate::store::same_device_tokens;
use crate::store::same_locations;
use crate::store::same_tokens;
use crate::store::same_users;
use crate::store::unchanged;
use crate::store::Store;
use crate::user::User;

verus! {

/// What a successful creation returns: the enriched alert and the
/// recipients discovered for it; the caller dispatches to them only after
/// committing.
#[derive(Debug)]
pub struct CreateAlertResponse {
    pub alert: EnrichedAlert,
    pub recipients: Vec<AlertNotificationInfo>,
}

/// The alert-type reference data, for any authenticated caller.
pub fn get_alert_types(token: &BearerToken, store: &Store, config: &AuthConfig, now: i64) -> (r:
    Result<Vec<AlertType>, ApiError>)
    ensures
        match r {
            Ok(v) => {
                &&& session_ok(*config, token.token@, TokenType::Auth, *store, now)
                &&& v@.len() == store.alert_types@.len()
                &&& forall|i: int| 0 <= i < v@.len() ==> v@[i] == store.alert_types@[i]
            },
            Err(e) => {
                &&& e == ApiError::Unauthorized
                &&& !session_ok(*config, token.token@, TokenType::Auth, *store, now)
            },
        },
{
    match User::from_token(&token.token, TokenType::Auth, config, store, now) {
        Some(_) => Ok(AlertType::get_all(store)),
        None => Err(ApiError::Unauthorized),
    }
}

/// Creates an alert for the authenticated caller: the input must carry
/// exactly one of place and coordinates, the resolver's reply fills the
/// other half, the row is persisted under the caller's email, and the
/// geofenced recipients are discovered for the caller to notify after
/// commit.  Any failure leaves the store untouched.
pub fn create_alert(
    alert: &AlertInput,
    token: &BearerToken,
    outcome: &GeocodeOutcome,
    store: &mut Store,
    config: &AuthConfig,
    now: i64,
) -> (r: Result<CreateAlertResponse, ApiError>)
    requires
        old(store).wf(),
        outcome_matches(*alert, *outcome),
    ensures
        final(store).wf(),
        same_users(*old(store), *final(store)),
        same_locations(*old(store), *final(store)),
        same_alert_types(*old(store), *final(store)),
        same_device_tokens(*old(store), *final(store)),
        same_tokens(*old(store), *final(store)),
        r == Err::<CreateAlertResponse, ApiError>(ApiError::Unauthorized) <==> !session_ok(
            *config,
            token.token@,
            TokenType::Auth,
            *old(store),
            now,
        ),
        session_ok(*config, token.token@, TokenType::Auth, *old(store), now) ==> (r == Err::<
            CreateAlertResponse,
            ApiError,
        >(ApiError::InputAmbiguous) <==> input_ambiguous(*alert)),
        match r {
            Ok(resp) => {
                &&& validate_token_spec(config.secret_spec(TokenType::Auth), token.token@, now)
                    matches Ok(sub) && resp.alert.alert.created_by@ == sub
                &&& alert_created_ok(
                    *old(store),
                    *final(store),
                    *alert,
                    *outcome,
                    resp.alert.alert.created_by@,
                    resp.alert.alert,
                    now,
                )
                &&& enrichment_ok(*final(store), resp.alert)
                &&& forall|j: int|
                    0 <= j < resp.recipients@.len() ==> notif_record_ok(
                        *final(store),
                        resp.alert.alert,
                        #[trigger] resp.recipients@[j],
                    )
                &&& forall|i: int, k: int|
                    (0 <= i < final(store).device_tokens@.len()
                        && 0 <= k < final(store).locations@.len()
                        && (#[trigger] final(store).device_tokens@[i]).user_id
                        == (#[trigger] final(store).locations@[k]).user_id
                        && geo::within_geofence(
                        final(store).locations@[k].latitude as int,
                        final(store).locations@[k].longitude as int,
                        resp.alert.alert.latitude as int,
                        resp.alert.alert.longitude as int,
                    )) ==> notif_covers(
                        resp.recipients@,
                        final(store).device_tokens@[i].token@,
                    )
            },
            Err(e) => {
                &&& unchanged(*old(store), *final(store))
                &&& (e == ApiError::StoreUnavailable ==> old(store).next_alert_id == i64::MAX)
                &&& (e matches ApiError::GeocodeUnavailable { .. } ==> fill_spec(*alert, *outcome)
                    == Err::<(Seq<char>, i64, i64), ApiError>(e))
                &&& (e == ApiError::Unauthorized || e == ApiError::InputAmbiguous || (e
                    matches ApiError::GeocodeUnavailable { .. }) || e == ApiError::StoreUnavailable)
            },
        },
{
    let user = match User::from_token(&token.token, TokenType::Auth, config, store, now) {
        Some(u) => u,
        None => {
            return Err(ApiError::Unauthorized);
        },
    };
    let created = match Alert::init(alert, &user.email, outcome, store, now) {
        Ok(a) => a,
        Err(e) => {
            return Err(e);
        },
    };
    let recipients = created.get_notification_info(store);
    let enriched = created.populate(store);
    Ok(CreateAlertResponse { alert: enriched, recipients })
}

/// Replaces an alert on behalf of its creator: only the creator may
/// update, the new input is re-resolved exactly as creation resolves it,
/// and the enriched new state is returned.
pub fn update_alert(
    alert_id: i64,
    updated: &AlertInput,
    token: &BearerToken,
    outcome: &GeocodeOutcome,
    store: &mut Store,
    config: &AuthConfig,
    now: i64,
) -> (r: Result<EnrichedAlert, ApiError>)
    requires
        old(store).wf(),
        outcome_matches(*updated, *outcome),
    ensures
        final(store).wf(),
        same_users(*old(store), *final(store)),
        same_locations(*old(store), *final(store)),
        same_alert_types(*old(store), *final(store)),
        same_device_tokens(*old(store), *final(store)),
        same_tokens(*old(store), *final(store)),
        final(store).next_alert_id == old(store).next_alert_id,
        r == Err::<EnrichedAlert, ApiError>(ApiError::Unauthorized) <==> !session_ok(
            *config,
            token.token@,
            TokenType::Auth,
            *old(store),
            now,
        ),
        r == Err::<EnrichedAlert, ApiError>(ApiError::Forbidden) <==> (session_ok(
            *config,
            token.token@,
            TokenType::Auth,
            *old(store),
            now,
        ) && (validate_token_spec(config.secret_spec(TokenType::Auth), token.token@, now)
            matches Ok(sub) && exists|i: int|
            0 <= i < old(store).alerts@.len() && (#[trigger] old(store).alerts@[i]).id == alert_id
                && old(store).alerts@[i].created_by@ != sub)),
        match r {
            Ok(ea) => {
                &&& validate_token_spec(config.secret_spec(TokenType::Auth), token.token@, now)
                    matches Ok(sub) && ea.alert.created_by@ == sub
                &&& alert_updated_ok(
                    *old(store),
                    *final(store),
                    *updated,
                    *outcome,
                    alert_id,
                    ea.alert,
                    now,
                )
                &&& enrichment_ok(*final(store), ea)
            },
            Err(e) => {
                &&& unchanged(*old(store), *final(store))
                &&& (e == ApiError::AlertNotFound ==> !has_alert_with_id(
                    old(store).alerts@,
                    alert_id,
                ))
                &&& (e == ApiError::InputAmbiguous ==> input_ambiguous(*updated))
                &&& (e matches ApiError::GeocodeUnavailable { .. } ==> fill_spec(
                    *updated,
                    *outcome,
                ) == Err::<(Seq<char>, i64, i64), ApiError>(e))
                &&& (e == ApiError::Unauthorized || e == ApiError::AlertNotFound || e
                    == ApiError::Forbidden || e == ApiError::InputAmbiguous || (e
                    matches ApiError::GeocodeUnavailable { .. }))
            },
        },
{
    let user = match User::from_token(&token.token, TokenType::Auth, config, store, now) {
        Some(u) => u,
        None => {
            return Err(ApiError::Unauthorized);
        },
    };
    let found = match Alert::get_by_id(alert_id, store) {
        Some(a) => a,
        None => {
            return Err(ApiError::AlertNotFound);
        },
    };
    if found.created_by != user.email {
        return Err(ApiError::Forbidden);
    }
    let new_row = match found.update(updated, outcome, store, now) {
        Ok(a) => a,
        Err(e) => {
            return Err(e);
        },
    };
    Ok(new_row.populate(store))
}

/// Marks an alert resolved on behalf of its creator.
pub fn resolve_alert(
    alert_id: i64,
    token: &BearerToken,
    store: &mut Store,
    config: &AuthConfig,
    now: i64,
) -> (r: Result<EnrichedAlert, ApiError>)
    requires
        old(store).wf(),
    ensures
        final(store).wf(),
        same_users(*old(store), *final(store)),
        same_locations(*old(store), *final(store)),
        same_alert_types(*old(store), *final(store)),
        same_device_tokens(*old(store), *final(store)),
        same_tokens(*old(store), *final(store)),
        final(store).next_alert_id == old(store).next_alert_id,
        r == Err::<EnrichedAlert, ApiError>(ApiError::Unauthorized) <==> !session_ok(
            *config,
            token.token@,
            TokenType::Auth,
            *old(store),
            now,
        ),
        r == Err::<EnrichedAlert, ApiError>(ApiError::Forbidden) <==> (session_ok(
            *config,
            token.token@,
            TokenType::Auth,
            *old(store),
            now,
        ) && (validate_token_spec(config.secret_spec(TokenType::Auth), token.token@, now)
            matches Ok(sub) && exists|i: int|
            0 <= i < old(store).alerts@.len() && (#[trigger] old(store).alerts@[i]).id == alert_id
                && old(store).alerts@[i].created_by@ != sub)),
        match r {
            Ok(ea) => {
                &&& ea.alert.is_resolved
                &&& alert_resolved_ok(*old(store), *final(store), alert_id, ea.alert, now)
                &&& enrichment_ok(*final(store), ea)
            },
            Err(e) => {
                &&& unchanged(*old(store), *final(store))
                &&& (e == ApiError::AlertNotFound <==> (session_ok(
                    *config,
                    token.token@,
                    TokenType::Auth,
                    *old(store),
                    now,
                ) && !has_alert_with_id(old(store).alerts@, alert_id)))
                &&& (e == ApiError::Unauthorized || e == ApiError::AlertNotFound || e
                    == ApiError::Forbidden)
            },
        },
{
    let user = match User::from_token(&token.token, TokenType::Auth, config, store, now) {
        Some(u) => u,
        None => {
            return Err(ApiError::Unauthorized);
        },
    };
    let found = match Alert::get_by_id(alert_id, store) {
        Some(a) => a,
        None => {
            return Err(ApiError::AlertNotFound);
        },
    };
    if found.created_by != user.email {
        return Err(ApiError::Forbidden);
    }
    let new_row = match found.resolve(store, now) {
        Ok(a) => a,
        Err(e) => {
            proof {
                assert(false);
            }
            return Err(e);
        },
    };
    Ok(new_row.populate(store))
}

/// Deletes an alert on behalf of its creator and returns the pre-deletion
/// snapshot, enriched.
pub fn delete_alert(
    alert_id: i64,
    token: &BearerToken,
    store: &mut Store,
    config: &AuthConfig,
    now: i64,
) -> (r: Result<EnrichedAlert, ApiError>)
    requires
        old(store).wf(),
    ensures
        final(store).wf(),
        same_users(*old(store), *final(store)),
        same_locations(*old(store), *final(store)),
        same_alert_types(*old(store), *final(store)),
        same_device_tokens(*old(store), *final(store)),
        same_tokens(*old(store), *final(store)),
        final(store).next_alert_id == old(store).next_alert_id,
        r == Err::<EnrichedAlert, ApiError>(ApiError::Unauthorized) <==> !session_ok(
            *config,
            token.token@,
            TokenType::Auth,
            *old(store),
            now,
        ),
        r == Err::<EnrichedAlert, ApiError>(ApiError::Forbidden) <==> (session_ok(
            *config,
            token.token@,
            TokenType::Auth,
            *old(store),
            now,
        ) && (validate_token_spec(config.secret_spec(TokenType::Auth), token.token@, now)
            matches Ok(sub) && exists|i: int|
            0 <= i < old(store).alerts@.len() && (#[trigger] old(store).alerts@[i]).id == alert_id
                && old(store).alerts@[i].created_by@ != sub)),
        match r {
            Ok(ea) => {
                &&& alert_deleted_ok(*old(store), *final(store), alert_id, ea.alert)
                &&& enrichment_ok(*final(store), ea)
            },
            Err(e) => {
                &&& unchanged(*old(store), *final(store))
                &&& (e == ApiError::AlertNotFound <==> (session_ok(
                    *config,
                    token.token@,
                    TokenType::Auth,
                    *old(store),
                    now,
                ) && !has_alert_with_id(old(store).alerts@, alert_id)))
                &&& (e == ApiError::Unauthorized || e == ApiError::AlertNotFound || e
                    == ApiError::Forbidden)
            },
        },
{
    let user = match User::from_token(&token.token, TokenType::Auth, config, store, now) {
        Some(u) => u,
        None => {
            return Err(ApiError::Unauthorized);
        },
    };
    let found = match Alert::get_by_id(alert_id, store) {
        Some(a) => a,
        None => {
            return Err(ApiError::AlertNotFound);
        },
    };
    if found.created_by != user.email {
        return Err(ApiError::Forbidden);
    }
    let removed = match found.delete(store) {
        Ok(a) => a,
        Err(e) => {
            proof {
                assert(false);
            }
            return Err(e);
        },
    };
    Ok(removed.populate(store))
}

/// The alerts inside the caller-supplied viewport, enriched: the viewport
/// is centred on (lat, lng) and spans the given deltas.
pub fn get_by_viewport(
    lat: i64,
    lng: i64,
    lat_delta: i64,
    lng_delta: i64,
    token: &BearerToken,
    store: &Store,
    config: &AuthConfig,
    now: i64,
) -> (r: Result<Vec<EnrichedAlert>, ApiError>)
    requires
        0 <= lat_delta,
        0 <= lng_delta,
    ensures
        match r {
            Ok(v) => {
                &&& session_ok(*config, token.token@, TokenType::Auth, *store, now)
                &&& forall|j: int|
                    0 <= j < v@.len() ==> alert_among(store.alerts@, (#[trigger] v@[j]).alert)
                        && enrichment_ok(*store, v@[j]) && geo::inside_viewport(
                        v@[j].alert.latitude as int,
                        v@[j].alert.longitude as int,
                        lat + lat_delta / 2,
                        lng + lng_delta / 2,
                        lat - lat_delta / 2,
                        lng - lng_delta / 2,
                    )
                &&& forall|i: int|
                    (0 <= i < store.alerts@.len() && geo::inside_viewport(
                        (#[trigger] store.alerts@[i]).latitude as int,
                        store.alerts@[i].longitude as int,
                        lat + lat_delta / 2,
                        lng + lng_delta / 2,
                        lat - lat_delta / 2,
                        lng - lng_delta / 2,
                    )) ==> exists|j: int|
                        0 <= j < v@.len() && (#[trigger] v@[j]).alert == store.alerts@[i]
            },
            Err(e) => {
                &&& e == ApiError::Unauthorized
                &&& !session_ok(*config, token.token@, TokenType::Auth, *store, now)
            },
        },
{
    match User::from_token(&token.token, TokenType::Auth, config, store, now) {
        Some(_) => {
        },
        None => {
            return Err(ApiError::Unauthorized);
        },
    };
    let half_lat: i128 = ((lat_delta as u64) / 2) as i128;
    let half_lng: i128 = ((lng_delta as u64) / 2) as i128;
    let ne_lat: i128 = lat as i128 + half_lat;
    let ne_lng: i128 = lng as i128 + half_lng;
    let sw_lat: i128 = lat as i128 - half_lat;
    let sw_lng: i128 = lng as i128 - half_lng;
    let raw = Alert::get_by_viewport(ne_lat, ne_lng, sw_lat, sw_lng, store);
    let mut result: Vec<EnrichedAlert> = Vec::new();
    let n = raw.len();
    let mut i: usize = 0;
    while i < n
        invariant
            n == raw@.len(),
            i <= n,
            result@.len() == i,
            forall|j: int| 0 <= j < i ==> (#[trigger] result@[j]).alert == raw@[j],
            forall|j: int| 0 <= j < i ==> enrichment_ok(*store, #[trigger] result@[j]),
            forall|j: int| 0 <= j < raw@.len() ==> alert_among(store.alerts@, #[trigger] raw@[j]),
            forall|j: int|
                0 <= j < raw@.len() ==> geo::inside_viewport(
                    (#[trigger] raw@[j]).latitude as int,
                    raw@[j].longitude as int,
                    ne_lat as int,
                    ne_lng as int,
                    sw_lat as int,
                    sw_lng as int,
                ),
        decreases n - i,
    {
        result.push(raw[i].populate(store));
        i = i + 1;
    }
    proof {
        assert forall|ii: int|
            (0 <= ii < store.alerts@.len() && geo::inside_viewport(
                (#[trigger] store.alerts@[ii]).latitude as int,
                store.alerts@[ii].longitude as int,
                lat + lat_delta / 2,
                lng + lng_delta / 2,
                lat - lat_delta / 2,
                lng - lng_delta / 2,
            )) implies exists|j: int|
            0 <= j < result@.len() && (#[trigger] result@[j]).alert == store.alerts@[ii] by {
            assert(alert_among(raw@, store.alerts@[ii]));
            let j = choose|j: int| 0 <= j < raw@.len() && store.alerts@[ii] == #[trigger] raw@[j];
            assert(result@[j].alert == store.alerts@[ii]);
        }
    }
    Ok(result)
}

} // verus!
