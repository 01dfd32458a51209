//! The two readings this library takes from outside: the wall clock and a
//! random identifier. Nothing here is proved; each contract states only what
//! the documentation or the source of the call shows of every result.

use vstd::prelude::*;

verus! {

/// Reads the wall clock with `SystemTime::elapsed`, called on
/// `std::time::UNIX_EPOCH`: the whole seconds that have passed since the Unix
/// epoch, or `None` where the clock reads a time before the epoch, which is
/// the one case in which the call reports an error; its documentation names
/// no other failure. Nothing is promised of the value, which changes from
/// call to call.
#[verifier::external_body]
pub(crate) fn unix_timestamp() -> (secs: Option<u64>) {
    match std::time::UNIX_EPOCH.elapsed() {
        Ok(elapsed) => Some(elapsed.as_secs()),
        Err(_) => None,
    }
}

/// Draws a random identifier with `uuid::Uuid::new_v4` and writes it with the
/// type's `Display`, the hyphenated lower-case form, which is 36 characters
/// long for every UUID. Which identifier comes back is left open.
#[verifier::external_body]
pub(crate) fn random_uuid() -> (text: String)
    ensures
        text@.len() == 36,
{
    uuid::Uuid::new_v4().to_string()
}

} // verus!
