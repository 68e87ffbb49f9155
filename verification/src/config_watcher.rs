//! Watching the translated configuration for real changes: a change event that rebuilds an equal
//! configuration is not reported.

use vstd::prelude::*;
use vstd::std_specs::cmp::PartialEqSpec;

verus! {

/// What a change notification led to.
pub enum ChangeEvent<T> {
    /// The configuration was rebuilt after a change.
    Rebuilt(T),
    /// Rebuilding the configuration failed; the change is skipped.
    RebuildFailed,
    /// Some change notifications were dropped.
    Lagged,
    /// No more notifications will come.
    Closed,
}

/// What the watcher reports for one event.
pub enum WatchOutcome<T> {
    /// The configuration changed; this is the one it replaced.
    Changed(T),
    /// The rebuilt configuration equals the last one.
    Unchanged,
    /// Nothing was rebuilt.
    Skipped,
    /// The notifications ended; no change will be reported again.
    Closed,
}

/// Tracks the last translated configuration.
pub struct TotalConfigWatcher<T> {
    last: T,
}

impl<T: PartialEq> TotalConfigWatcher<T> {
    /// The configuration last adopted.
    pub closed spec fn current(&self) -> T {
        self.last
    }

    /// Starts watching from the initial configuration.
    pub fn new(initial: T) -> (w: Self)
        ensures
            w.current() == initial,
    {
        TotalConfigWatcher { last: initial }
    }

    /// Returns the configuration last adopted.
    pub fn last(&self) -> (r: &T)
        ensures
            *r == self.current(),
    {
        &self.last
    }

    /// Handles one change notification: a rebuilt configuration that differs from the last one is
    /// adopted and the replaced one returned; anything else leaves the watcher as it was.
    pub fn observe(&mut self, event: ChangeEvent<T>) -> (r: WatchOutcome<T>)
        ensures
            match event {
                ChangeEvent::Rebuilt(n) => {
                    &&& (r matches WatchOutcome::Changed(o) && o == old(self).current() && final(self).current() == n)
                        || (r is Unchanged && final(self).current() == old(self).current())
                    &&& T::obeys_eq_spec() ==> (r is Changed <==> !old(self).current().eq_spec(&n))
                },
                ChangeEvent::RebuildFailed | ChangeEvent::Lagged => r is Skipped && final(self).current()
                    == old(self).current(),
                ChangeEvent::Closed => r is Closed && final(self).current() == old(self).current(),
            },
    {
        match event {
            ChangeEvent::Rebuilt(next) => {
                if self.last == next {
                    WatchOutcome::Unchanged
                } else {
                    let mut previous = next;
                    core::mem::swap(&mut self.last, &mut previous);
                    WatchOutcome::Changed(previous)
                }
            },
            ChangeEvent::RebuildFailed | ChangeEvent::Lagged => WatchOutcome::Skipped,
            ChangeEvent::Closed => WatchOutcome::Closed,
        }
    }
}

} // verus!
