//! The time of day, which only the machine knows.

use vstd::prelude::*;

verus! {

/// The local date and time at the moment of the call, as text.
///
/// Calls `chrono::Local::now` and writes what it returns with its `Display`
/// impl. The text depends on the clock and the time zone of the machine, so
/// nothing is claimed of it.
#[verifier::external_body]
pub(crate) fn local_timestamp() -> String {
    chrono::Local::now().to_string()
}

} // verus!
