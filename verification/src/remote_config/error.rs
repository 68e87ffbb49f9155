//! Errors of the remote configuration client and the rejection messages reported for
//! configurations.

use std::time::Duration;

use vstd::prelude::*;

use crate::text::{owned, push_str};

verus! {

/// A configuration's rejection, as reported to the Agent: a message string.
#[derive(Debug, PartialEq, Eq)]
pub struct ApplyError {
    message: String,
}

impl View for ApplyError {
    type V = Seq<char>;

    open spec fn view(&self) -> Seq<char> {
        self.text()
    }
}

impl Clone for ApplyError {
    fn clone(&self) -> (r: Self)
        ensures
            r == *self,
    {
        ApplyError { message: self.message.clone() }
    }
}

impl ApplyError {
    /// The message.
    pub closed spec fn text(&self) -> Seq<char> {
        self.message@
    }

    /// Creates a rejection carrying `message` verbatim.
    pub fn new(message: &str) -> (r: Self)
        ensures
            r@ == message@,
    {
        ApplyError { message: owned(message) }
    }

    /// Returns the message.
    pub fn to_string(&self) -> (s: String)
        ensures
            s@ == self@,
    {
        self.message.clone()
    }

    /// Returns the rejection itself.
    pub fn as_apply_error(&self) -> (r: ApplyError)
        ensures
            r == *self,
    {
        self.clone()
    }
}

/// Converts a subscriber's decoding error into the rejection reported for a configuration.
///
/// The message should identify the problem without including secrets or raw payloads.
pub trait AsApplyError {
    /// The message of the rejection this error is reported as.
    ///
    /// An implementation verified against [`as_apply_error`](Self::as_apply_error) defines it; the
    /// default leaves it unspecified.
    closed spec fn reason(&self) -> Seq<char> {
        arbitrary()
    }

    /// Describes this error as a rejection the client can report to the Agent.
    fn as_apply_error(&self) -> (r: ApplyError)
        ensures
            r@ == self.reason(),
    ;
}

impl AsApplyError for ApplyError {
    open spec fn reason(&self) -> Seq<char> {
        self@
    }

    fn as_apply_error(&self) -> (r: ApplyError)
        ensures
            r == *self,
    {
        self.clone()
    }
}

impl AsApplyError for String {
    open spec fn reason(&self) -> Seq<char> {
        self@
    }

    fn as_apply_error(&self) -> (r: ApplyError) {
        ApplyError::new(self.as_str())
    }
}

/// An error produced by the remote configuration client.
#[derive(Debug)]
pub enum Error {
    /// The product already has a live subscription on this client.
    AlreadySubscribed {
        /// The name of the product that is already subscribed, such as `APM_SEMANTIC_CORE_DD`.
        product: String,
    },
    /// The polling interval is shorter than one second.
    InvalidPollInterval {
        /// The invalid polling interval.
        poll_interval: Duration,
    },
    /// The maximum backoff is shorter than the polling interval.
    InvalidMaxBackoff {
        /// The configured polling interval.
        poll_interval: Duration,
        /// The invalid maximum backoff.
        max_backoff: Duration,
    },
}

/// The text `{:?}` gives for a duration.
pub uninterp spec fn duration_debug_text(d: Duration) -> Seq<char>;

/// Formats a duration as `{:?}` does (`<Duration as Debug>::fmt`); the result is named by
/// `duration_debug_text`.
#[verifier::external_body]
fn duration_text(d: &Duration) -> (s: String)
    ensures
        s@ == duration_debug_text(*d),
{
    format!("{:?}", d)
}

/// The message of an error.
pub open spec fn error_message(e: Error) -> Seq<char> {
    match e {
        Error::AlreadySubscribed { product } => "Product "@ + product@
            + " is already subscribed on this client."@,
        Error::InvalidPollInterval { poll_interval } => "poll_interval must be at least one second; got "@
            + duration_debug_text(poll_interval) + "."@,
        Error::InvalidMaxBackoff { poll_interval, max_backoff } => "max_backoff must be at least poll_interval ("@
            + duration_debug_text(poll_interval) + "); got "@ + duration_debug_text(max_backoff)
            + "."@,
    }
}

impl Error {
    /// Returns the error's message.
    pub fn message(&self) -> (s: String)
        ensures
            s@ == error_message(*self),
    {
        match self {
            Error::AlreadySubscribed { product } => {
                let mut s = owned("Product ");
                push_str(&mut s, product.as_str());
                push_str(&mut s, " is already subscribed on this client.");
                s
            },
            Error::InvalidPollInterval { poll_interval } => {
                let mut s = owned("poll_interval must be at least one second; got ");
                let d = duration_text(poll_interval);
                push_str(&mut s, d.as_str());
                push_str(&mut s, ".");
                s
            },
            Error::InvalidMaxBackoff { poll_interval, max_backoff } => {
                let mut s = owned("max_backoff must be at least poll_interval (");
                let d = duration_text(poll_interval);
                push_str(&mut s, d.as_str());
                push_str(&mut s, "); got ");
                let m = duration_text(max_backoff);
                push_str(&mut s, m.as_str());
                push_str(&mut s, ".");
                s
            },
        }
    }
}

} // verus!
