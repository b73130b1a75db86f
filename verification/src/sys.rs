//! Wrappers for the outside sources of identity and time.

use vstd::prelude::*;

verus! {

/// Relies on `uuid::Uuid::new_v4` and `Uuid::as_u128`: a freshly drawn
/// random version-4 UUID, carried as its 128-bit value. Nothing is assumed
/// about the value: every caller must hold for any outcome.
#[verifier::external_body]
pub(crate) fn fresh_uuid() -> u128 {
    uuid::Uuid::new_v4().as_u128()
}

/// Relies on `chrono::Utc::now` and `DateTime::timestamp_millis`: the wall
/// clock as milliseconds since the Unix epoch. Nothing is assumed about the
/// reading: every caller must hold for any outcome.
#[verifier::external_body]
pub(crate) fn now_ms() -> i64 {
    chrono::Utc::now().timestamp_millis()
}

} // verus!
