//! A small RSVP confirmation library.
//!
//! An invitee list is populated elsewhere; this library looks a guest up by a
//! case-insensitive name match and records or updates the guest's attendance
//! decision, keeping at most one confirmation per invitee.  The storage and
//! HTTP layers around it hand plain values in and take plain values back.

pub mod http;
pub mod models;
pub mod names;
pub mod resolver;
pub mod store;
