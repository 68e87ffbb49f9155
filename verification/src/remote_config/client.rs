//! Settings for the remote configuration client.

use std::time::Duration;

use vstd::prelude::*;

use crate::time::{from_secs, seconds};

verus! {

/// Settings for a remote configuration client.
///
/// Whatever the settings, the worker polls once immediately when it starts, and retries every
/// second until its first successful poll.
#[derive(Debug)]
pub struct RcClientConfiguration {
    /// How long the worker waits between successful polls. Defaults to 5 seconds.
    pub poll_interval: Duration,
    /// The longest the worker waits between polls while polls are failing. Defaults to 90 seconds.
    pub max_backoff: Duration,
}

impl Default for RcClientConfiguration {
    fn default() -> (r: Self)
        ensures
            r.poll_interval == seconds(5),
            r.max_backoff == seconds(90),
    {
        RcClientConfiguration { poll_interval: from_secs(5), max_backoff: from_secs(90) }
    }
}

} // verus!
