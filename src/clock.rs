use vstd::prelude::*;

verus! {

/// Relies on chrono's `Utc::now` and `DateTime::timestamp_millis`: the current
/// wall-clock time in milliseconds since the Unix epoch. Nothing is promised of
/// the value, which depends on the machine's clock.
#[verifier::external_body]
pub(crate) fn time_now() -> (r: i64) {
    chrono::Utc::now().timestamp_millis()
}

/// Relies on ulid's `Ulid::new` and `Ulid::to_string`: a fresh ULID, drawn
/// from the clock and a random source, written in Crockford base32, which
/// always takes 26 characters.
#[verifier::external_body]
pub(crate) fn new_upload_id() -> (r: String)
    ensures
        r@.len() == 26,
{
    ulid::Ulid::new().to_string()
}

} // verus!
