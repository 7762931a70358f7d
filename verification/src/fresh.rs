//! What the library draws from outside itself: random identifiers, their
//! text, and the time of day.

use vstd::prelude::*;

verus! {

/// The text that the `uuid` crate writes for the UUID that `id` stands for.
pub uninterp spec fn uuid_text(id: u128) -> Seq<char>;

/// A new random UUID, as the 128-bit number it stands for.
///
/// Calls `uuid::Uuid::new_v4` and reads the result with `as_u128`. The number
/// comes from the operating system's random source, so nothing is claimed of
/// it; the call panics if that source cannot be read.
#[verifier::external_body]
pub(crate) fn random_uuid() -> (id: u128) {
    uuid::Uuid::new_v4().as_u128()
}

/// The text of a UUID.
///
/// Builds the UUID with `uuid::Uuid::from_u128` and formats it with its
/// `Display` impl, through `to_string`. The contract only names the text: it
/// is the same for the same number, whatever the process or the machine.
#[verifier::external_body]
pub(crate) fn uuid_to_string(id: u128) -> (text: String)
    ensures
        text@ == uuid_text(id),
{
    uuid::Uuid::from_u128(id).to_string()
}

/// The current time in whole seconds since the Unix epoch.
///
/// Calls `chrono::Utc::now` and reads the result with `timestamp`. The value
/// depends on the clock, so nothing is claimed of it; the call panics if the
/// clock stands before the epoch.
#[verifier::external_body]
pub(crate) fn utc_now() -> (seconds: i64) {
    chrono::Utc::now().timestamp()
}

} // verus!
