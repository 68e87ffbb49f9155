//! Registration with the Datadog Agent as a remote agent, and the relaying of its config
//! stream: the decisions each event leads to.

use vstd::prelude::*;

use crate::text::{push_char, to_lowercase, unicode_lowercase};

verus! {

/// Seconds between registration refreshes when the Agent recommends none, and before retrying a
/// failed registration.
pub const DEFAULT_REFRESH_INTERVAL_SECS: u64 = 30;

/// Seconds before re-registering after a failed refresh.
pub const REFRESH_FAILED_RETRY_INTERVAL_SECS: u64 = 5;

/// Seconds before reconnecting a config stream that ended.
pub const CONFIG_STREAM_RETRY_INTERVAL_SECS: u64 = 5;

/// Where registration stands.
#[derive(Clone, Copy, Debug, PartialEq, Eq, Structural)]
pub struct RegistrationProgress {
    /// Whether a session is held, so that the next tick refreshes it rather than registers.
    pub registered: bool,
    /// Whether the outcome of the first registration attempt is still to be reported.
    pub initial_pending: bool,
}

/// The outcome of one registration tick.
#[derive(Clone, Copy, Debug, PartialEq, Eq, Structural)]
pub enum RegistrationEvent {
    /// The session was refreshed.
    Refreshed,
    /// The refresh failed.
    RefreshFailed,
    /// Registration succeeded with a valid session ID; the Agent recommends refreshing every
    /// `refresh_interval_secs` seconds.
    Registered {
        /// The recommended refresh interval, in seconds.
        refresh_interval_secs: u32,
    },
    /// Registration succeeded but the session ID was invalid.
    InvalidSessionId,
    /// Registration failed.
    RegistrationFailed,
}

/// What the registration task does after a tick.
#[derive(Clone, Copy, Debug, PartialEq, Eq, Structural)]
pub struct RegistrationAction {
    /// Seconds until the next tick, when the timer is reset; `None` keeps its period.
    pub reset_after_secs: Option<u64>,
    /// Whether the session is dropped.
    pub clear_session: bool,
    /// Whether the new session is stored.
    pub store_session: bool,
    /// The first registration attempt's outcome to report, when it is reported now: `true` for
    /// success.
    pub report_initial: Option<bool>,
}

/// The next progress and action after `event`.
pub open spec fn registration_transition(p: RegistrationProgress, event: RegistrationEvent) -> (
    RegistrationProgress,
    RegistrationAction,
) {
    match event {
        RegistrationEvent::Refreshed => (
            p,
            RegistrationAction { reset_after_secs: None, clear_session: false, store_session: false, report_initial: None },
        ),
        RegistrationEvent::RefreshFailed => (
            RegistrationProgress { registered: false, initial_pending: p.initial_pending },
            RegistrationAction {
                reset_after_secs: Some(REFRESH_FAILED_RETRY_INTERVAL_SECS),
                clear_session: true,
                store_session: false,
                report_initial: None,
            },
        ),
        RegistrationEvent::Registered { refresh_interval_secs } => (
            RegistrationProgress { registered: true, initial_pending: false },
            RegistrationAction {
                reset_after_secs: Some(refresh_interval_secs as u64),
                clear_session: false,
                store_session: true,
                report_initial: if p.initial_pending { Some(true) } else { None },
            },
        ),
        RegistrationEvent::InvalidSessionId => (
            p,
            RegistrationAction {
                reset_after_secs: Some(DEFAULT_REFRESH_INTERVAL_SECS),
                clear_session: false,
                store_session: false,
                report_initial: None,
            },
        ),
        RegistrationEvent::RegistrationFailed => (
            RegistrationProgress { registered: p.registered, initial_pending: false },
            RegistrationAction {
                reset_after_secs: Some(DEFAULT_REFRESH_INTERVAL_SECS),
                clear_session: false,
                store_session: false,
                report_initial: if p.initial_pending { Some(false) } else { None },
            },
        ),
    }
}

/// Decides what follows a registration tick's outcome.
///
/// A failed refresh drops the session and re-registers shortly; a successful registration
/// stores the session and refreshes at the Agent's recommended interval; an invalid session ID
/// or a failed registration retries after the default interval. The first registration attempt's
/// outcome is reported once, whether it succeeded or failed; an invalid session ID is retried
/// without reporting.
pub fn registration_step(p: RegistrationProgress, event: RegistrationEvent) -> (r: (
    RegistrationProgress,
    RegistrationAction,
))
    ensures
        r == registration_transition(p, event),
{
    match event {
        RegistrationEvent::Refreshed => (
            p,
            RegistrationAction { reset_after_secs: None, clear_session: false, store_session: false, report_initial: None },
        ),
        RegistrationEvent::RefreshFailed => (
            RegistrationProgress { registered: false, initial_pending: p.initial_pending },
            RegistrationAction {
                reset_after_secs: Some(REFRESH_FAILED_RETRY_INTERVAL_SECS),
                clear_session: true,
                store_session: false,
                report_initial: None,
            },
        ),
        RegistrationEvent::Registered { refresh_interval_secs } => (
            RegistrationProgress { registered: true, initial_pending: false },
            RegistrationAction {
                reset_after_secs: Some(refresh_interval_secs as u64),
                clear_session: false,
                store_session: true,
                report_initial: if p.initial_pending { Some(true) } else { None },
            },
        ),
        RegistrationEvent::InvalidSessionId => (
            p,
            RegistrationAction {
                reset_after_secs: Some(DEFAULT_REFRESH_INTERVAL_SECS),
                clear_session: false,
                store_session: false,
                report_initial: None,
            },
        ),
        RegistrationEvent::RegistrationFailed => (
            RegistrationProgress { registered: p.registered, initial_pending: false },
            RegistrationAction {
                reset_after_secs: Some(DEFAULT_REFRESH_INTERVAL_SECS),
                clear_session: false,
                store_session: false,
                report_initial: if p.initial_pending { Some(false) } else { None },
            },
        ),
    }
}

/// The first registration attempt's outcome is reported at most once: after a report, none is
/// pending, and no later event reports again.
pub proof fn lemma_initial_outcome_reported_once(
    p: RegistrationProgress,
    first: RegistrationEvent,
    second: RegistrationEvent,
)
    requires
        registration_transition(p, first).1.report_initial is Some,
    ensures
        !registration_transition(p, first).0.initial_pending,
        registration_transition(registration_transition(p, first).0, second).1.report_initial is None,
{
}

/// A registration tick's outcome never leaves the session both stored and dropped, and the
/// session is held afterwards exactly when it was stored, or was held and not dropped.
pub proof fn lemma_session_follows_actions(p: RegistrationProgress, event: RegistrationEvent)
    ensures
        !(registration_transition(p, event).1.clear_session && registration_transition(p, event).1.store_session),
        registration_transition(p, event).0.registered == (registration_transition(p, event).1.store_session
            || (p.registered && !registration_transition(p, event).1.clear_session)),
{
}

/// The flavor name the data plane registers under: its full name with spaces replaced by
/// underscores, lowercased.
pub open spec fn flavor_of(full_name: Seq<char>) -> Seq<char> {
    unicode_lowercase(full_name.map_values(|c: char| if c == ' ' { '_' } else { c }))
}

/// Returns the flavor name the data plane registers under.
pub fn flavor(full_name: &str) -> (r: String)
    ensures
        r@ == flavor_of(full_name@),
{
    let chars = crate::text::chars_of(full_name);
    let mut replaced = crate::text::owned("");
    proof {
        reveal_strlit("");
    }
    let mut i: usize = 0;
    while i < chars.len()
        invariant
            i <= chars.len(),
            chars@ == full_name@,
            replaced@ == full_name@.subrange(0, i as int).map_values(|c: char| if c == ' ' { '_' } else { c }),
        decreases chars.len() - i,
    {
        let c = chars[i];
        push_char(&mut replaced, if c == ' ' { '_' } else { c });
        proof {
            assert(full_name@.subrange(0, i + 1).map_values(|c: char| if c == ' ' { '_' } else { c }) =~= full_name@.subrange(
                0,
                i as int,
            ).map_values(|c: char| if c == ' ' { '_' } else { c }).push(if c == ' ' { '_' } else { c }));
        }
        i = i + 1;
    }
    assert(full_name@.subrange(0, i as int) =~= full_name@);
    to_lowercase(replaced.as_str())
}

/// What a config stream event carried.
#[derive(Clone, Copy, Debug, PartialEq, Eq, Structural)]
pub enum ConfigEventKind {
    /// A full snapshot.
    Snapshot,
    /// An update, which may carry a setting.
    Update {
        /// Whether a setting is present.
        has_setting: bool,
    },
    /// No data.
    Empty,
}

/// What relaying does with a config stream event.
#[derive(Clone, Copy, Debug, PartialEq, Eq, Structural)]
pub enum RelayAction {
    /// Forward the snapshot.
    ForwardSnapshot,
    /// Forward the setting as a partial update.
    ForwardPartial,
    /// Forward nothing.
    Skip,
    /// Forward nothing, and report an event without data.
    ReportEmpty,
}

/// Decides what relaying does with a config stream event.
pub fn relay_action(kind: ConfigEventKind) -> (a: RelayAction)
    ensures
        kind == ConfigEventKind::Snapshot ==> a == RelayAction::ForwardSnapshot,
        kind == (ConfigEventKind::Update { has_setting: true }) ==> a == RelayAction::ForwardPartial,
        kind == (ConfigEventKind::Update { has_setting: false }) ==> a == RelayAction::Skip,
        kind == ConfigEventKind::Empty ==> a == RelayAction::ReportEmpty,
{
    match kind {
        ConfigEventKind::Snapshot => RelayAction::ForwardSnapshot,
        ConfigEventKind::Update { has_setting } => if has_setting {
            RelayAction::ForwardPartial
        } else {
            RelayAction::Skip
        },
        ConfigEventKind::Empty => RelayAction::ReportEmpty,
    }
}

} // verus!
