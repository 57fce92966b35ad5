//! Location request handlers: upserting and reading the caller's latest
//! location, and the read side of the address lookup.

use vstd::prelude::*;

use crate::auth::validate_token_spec;
use crate::auth::AuthConfig;
use crate::auth::BearerToken;
use crate::auth::TokenType;
use crate::errors::ApiError;
use crate::location::location_upsert_ok;
use crate::location::Location;
use crate::location::LocationInput;
use crate::mapquest::MapquestResult;
use crate::mapquest::failure_reason;
use crate::request::session_ok;
use crate::store::same_alert_types;
use crate::store::same_alerts;
use crate::store::same_device_tokens;
use crate::store::same_tokens;
use crate::store::same_users;
use crate::store::unchanged;
use crate::store::Store;
use crate::user::User;

verus! {

/// Upserts the caller's latest location from a batch of samples; only the
/// last (latest) sample is kept, and at most one row per user exists.
pub fn update_user_location(
    locations: &Vec<LocationInput>,
    token: &BearerToken,
    store: &mut Store,
    config: &AuthConfig,
    now: i64,
) -> (r: Result<Location, ApiError>)
    requires
        old(store).wf(),
        0 <= now,
    ensures
        final(store).wf(),
        same_users(*old(store), *final(store)),
        same_alerts(*old(store), *final(store)),
        same_alert_types(*old(store), *final(store)),
        same_device_tokens(*old(store), *final(store)),
        same_tokens(*old(store), *final(store)),
        match r {
            Ok(l) => {
                &&& locations@.len() > 0
                &&& validate_token_spec(config.secret_spec(TokenType::Auth), token.token@, now)
                    matches Ok(sub) && exists|ui: int|
                    0 <= ui < old(store).users@.len() && (#[trigger] old(store).users@[ui]).email@
                        == sub && l.user_id == old(store).users@[ui].id
                &&& l.latitude == locations@.last().latitude
                &&& l.longitude == locations@.last().longitude
                &&& l.updated_at == now
                &&& location_upsert_ok(
                    old(store).locations@,
                    final(store).locations@,
                    l.user_id,
                    locations@.last().latitude,
                    locations@.last().longitude,
                    now,
                )
            },
            Err(e) => {
                &&& unchanged(*old(store), *final(store))
                &&& (e == ApiError::NoLocationsGiven <==> locations@.len() == 0)
                &&& (e == ApiError::Unauthorized ==> !session_ok(
                    *config,
                    token.token@,
                    TokenType::Auth,
                    *old(store),
                    now,
                ))
                &&& (e == ApiError::NoLocationsGiven || e == ApiError::Unauthorized)
            },
        },
{
    if locations.len() == 0 {
        return Err(ApiError::NoLocationsGiven);
    }
    let user = match User::from_token(&token.token, TokenType::Auth, config, store, now) {
        Some(u) => u,
        None => {
            return Err(ApiError::Unauthorized);
        },
    };
    let latest = &locations[locations.len() - 1];
    let row = Location {
        user_id: user.id,
        latitude: latest.latitude,
        longitude: latest.longitude,
        created_at: now,
        updated_at: now,
    };
    match row.init_or_update(store, now) {
        Ok(l) => {
            proof {
                let i = choose|i: int|
                    0 <= i < old(store).users@.len() && #[trigger] old(store).users@[i] == user;
                assert(old(store).users@[i].id == user.id);
            }
            Ok(l)
        },
        Err(e) => {
            proof {
                assert(false);
            }
            Err(e)
        },
    }
}

/// The caller's stored location, if any.
pub fn get_user_location(token: &BearerToken, store: &Store, config: &AuthConfig, now: i64) -> (r:
    Result<Option<Location>, ApiError>)
    ensures
        match r {
            Ok(ol) => validate_token_spec(config.secret_spec(TokenType::Auth), token.token@, now)
                matches Ok(sub) && exists|ui: int|
                {
                    &&& 0 <= ui < store.users@.len()
                    &&& (#[trigger] store.users@[ui]).email@ == sub
                    &&& match ol {
                        Some(l) => l.user_id == store.users@[ui].id && exists|li: int|
                            0 <= li < store.locations@.len() && #[trigger] store.locations@[li]
                                == l,
                        None => forall|li: int|
                            0 <= li < store.locations@.len()
                                ==> (#[trigger] store.locations@[li]).user_id
                                != store.users@[ui].id,
                    }
                },
            Err(e) => {
                &&& e == ApiError::Unauthorized
                &&& !session_ok(*config, token.token@, TokenType::Auth, *store, now)
            },
        },
{
    let user = match User::from_token(&token.token, TokenType::Auth, config, store, now) {
        Some(u) => u,
        None => {
            return Err(ApiError::Unauthorized);
        },
    };
    let found = user.get_location(store);
    proof {
        let i = choose|i: int|
            0 <= i < store.users@.len() && #[trigger] store.users@[i] == user;
        assert(store.users@[i].id == user.id);
    }
    Ok(found)
}

/// The coordinates whose address the caller asked for: their stored
/// location, to be handed to the reverse geocoder.  Success exactly when
/// the session is good and a location row exists for its subject.
pub fn get_user_address(token: &BearerToken, store: &Store, config: &AuthConfig, now: i64) -> (r:
    Result<(i64, i64), ApiError>)
    requires
        store.wf(),
    ensures
        match r {
            Ok(c) => validate_token_spec(config.secret_spec(TokenType::Auth), token.token@, now)
                matches Ok(sub) && exists|ui: int, li: int|
                {
                    &&& 0 <= ui < store.users@.len()
                    &&& 0 <= li < store.locations@.len()
                    &&& (#[trigger] store.users@[ui]).email@ == sub
                    &&& (#[trigger] store.locations@[li]).user_id == store.users@[ui].id
                    &&& c.0 == store.locations@[li].latitude
                    &&& c.1 == store.locations@[li].longitude
                },
            Err(e) => {
                &&& (e == ApiError::Unauthorized <==> !session_ok(
                    *config,
                    token.token@,
                    TokenType::Auth,
                    *store,
                    now,
                ))
                &&& (e == ApiError::LocationNotFound <==> (session_ok(
                    *config,
                    token.token@,
                    TokenType::Auth,
                    *store,
                    now,
                ) && (validate_token_spec(config.secret_spec(TokenType::Auth), token.token@, now)
                    matches Ok(sub) ==> forall|ui: int|
                    (0 <= ui < store.users@.len() && (#[trigger] store.users@[ui]).email@ == sub)
                        ==> (forall|li: int|
                        0 <= li < store.locations@.len()
                            ==> (#[trigger] store.locations@[li]).user_id
                            != store.users@[ui].id))))
                &&& (e == ApiError::Unauthorized || e == ApiError::LocationNotFound)
            },
        },
{
    let user = match User::from_token(&token.token, TokenType::Auth, config, store, now) {
        Some(u) => u,
        None => {
            return Err(ApiError::Unauthorized);
        },
    };
    proof {
        let i = choose|i: int|
            0 <= i < store.users@.len() && #[trigger] store.users@[i] == user;
        assert forall|j: int|
            0 <= j < store.users@.len() && (#[trigger] store.users@[j]).email@ == user.email@
            implies store.users@[j] == user by {
            if j != i {
                assert(store.users@[j].email@ != store.users@[i].email@);
            }
        }
    }
    match user.get_location(store) {
        Some(l) => {
            proof {
                let ui = choose|ui: int|
                    0 <= ui < store.users@.len() && #[trigger] store.users@[ui] == user;
                let li = choose|li: int|
                    0 <= li < store.locations@.len() && #[trigger] store.locations@[li] == l;
                assert(store.users@[ui].email@ == user.email@);
                assert(store.locations@[li].user_id == user.id);
            }
            Ok((l.latitude, l.longitude))
        },
        None => Err(ApiError::LocationNotFound),
    }
}

/// Turns the reverse lookup's outcome into the response for the address
/// request: the place string on success, the specific geocode failure
/// otherwise, never a default.
pub fn address_from_outcome(outcome: &MapquestResult<String>) -> (r: Result<String, ApiError>)
    ensures
        match *outcome {
            MapquestResult::Success(a) => r matches Ok(s) && s@ == a@,
            MapquestResult::NoAPIKey => r == Err::<String, ApiError>(
                ApiError::GeocodeUnavailable {
                    reason: failure_reason(MapquestResult::<Seq<char>>::NoAPIKey),
                },
            ),
            MapquestResult::NoResult => r == Err::<String, ApiError>(
                ApiError::GeocodeUnavailable {
                    reason: failure_reason(MapquestResult::<Seq<char>>::NoResult),
                },
            ),
            MapquestResult::NoValue => r == Err::<String, ApiError>(
                ApiError::GeocodeUnavailable {
                    reason: failure_reason(MapquestResult::<Seq<char>>::NoValue),
                },
            ),
        },
{
    match outcome {
        MapquestResult::Success(a) => Ok(a.clone()),
        MapquestResult::NoAPIKey => Err(
            ApiError::GeocodeUnavailable { reason: crate::errors::GeocodeFailure::NoApiKey },
        ),
        MapquestResult::NoResult => Err(
            ApiError::GeocodeUnavailable { reason: crate::errors::GeocodeFailure::NoResult },
        ),
        MapquestResult::NoValue => Err(
            ApiError::GeocodeUnavailable { reason: crate::errors::GeocodeFailure::NoValue },
        ),
    }
}

} // verus!
