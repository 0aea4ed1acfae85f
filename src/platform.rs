//! The outside calls the library makes: fresh identifiers, the clock, and
//! string normalisation.
use vstd::prelude::*;

verus! {

/// The characters of a string with leading and trailing whitespace removed.
pub uninterp spec fn trim_of(s: Seq<char>) -> Seq<char>;

/// The lowercase mapping of a string's characters.
pub uninterp spec fn lower_of(s: Seq<char>) -> Seq<char>;

/// Relies on uuid::Uuid::new_v4 for a random version-4 identifier, taken as
/// its 128-bit value; nothing is promised of the value.
#[verifier::external_body]
pub(crate) fn fresh_id() -> (r: u128) {
    uuid::Uuid::new_v4().as_u128()
}

/// Relies on chrono::Utc::now for the current time in microseconds since the
/// Unix epoch; that call fails rather than return a time before the epoch.
#[verifier::external_body]
pub(crate) fn now_micros() -> (r: i64)
    ensures
        r >= 0,
{
    chrono::Utc::now().timestamp_micros()
}

/// Relies on str::trim: a slice of the input, without leading and trailing
/// whitespace.
#[verifier::external_body]
pub(crate) fn trimmed(s: &str) -> (r: &str)
    ensures
        r@ == trim_of(s@),
        r@.len() <= s@.len(),
{
    s.trim()
}

/// Relies on str::to_lowercase: each character maps to one or more characters,
/// so the result is empty exactly when the input is.
#[verifier::external_body]
pub(crate) fn lowercase(s: &str) -> (r: String)
    ensures
        r@ == lower_of(s@),
        r@.len() == 0 <==> s@.len() == 0,
{
    s.to_lowercase()
}

} // verus!
