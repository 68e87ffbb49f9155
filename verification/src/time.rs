//! Durations as configuration carries them: whole seconds.

use std::time::Duration;

use vstd::prelude::*;

verus! {

/// The duration of a whole number of seconds (`Duration::from_secs`).
pub uninterp spec fn seconds(secs: u64) -> Duration;

/// Makes a duration of `secs` seconds (`Duration::from_secs`); the result is named by `seconds`.
#[verifier::external_body]
pub(crate) fn from_secs(secs: u64) -> (d: Duration)
    ensures
        d == seconds(secs),
{
    Duration::from_secs(secs)
}

} // verus!
