//! Core of a location-aware alerting backend.
//!
//! Users report incidents ("alerts") tied to a place; nearby users holding a
//! registered push token are notified.  This library holds the two coupled
//! subsystems that carry the logic: the credential / token lifecycle that
//! gates every mutating operation, and the alert lifecycle with geofenced
//! recipient discovery and notification fanout bookkeeping.
//!
//! The relational store is modelled by [`store::Store`], an in-memory image
//! of the persisted tables; the HTTP layer, the geocoding service and the
//! push gateway are outside collaborators.  Where a handler needs the result
//! of an outside round trip (a geocode lookup, a gateway send), it takes that
//! result as a value, so every decision the handler makes is verified for
//! every outcome the collaborator can produce.

pub mod geo;

pub mod errors;

pub mod digits;

pub mod auth;

pub mod user;

pub mod location;

pub mod alerts;

pub mod store;

pub mod mapquest;

pub mod firebase;

pub mod request;

pub mod views_user;

pub mod views_location;

pub mod views_alert;
