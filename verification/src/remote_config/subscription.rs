//! The state a product's subscribers observe, and the cursor by which each of them reads it.

use std::marker::PhantomData;
use std::sync::Arc;

use vstd::prelude::*;

verus! {

/// Shares a snapshot with another holder (`Arc::clone`): the clone points at the same value.
#[verifier::external_body]
fn share<T>(a: &Arc<T>) -> (r: Arc<T>)
    ensures
        r == *a,
{
    Arc::clone(a)
}

/// The published state of one product.
///
/// A rejection never evicts the accepted snapshot, so retaining the last known-good
/// configuration is the publisher's behavior rather than each consumer's bookkeeping.
pub struct Publication<T, E> {
    accepted: Option<Arc<T>>,
    rejection: Option<Arc<E>>,
    version: u64,
}

/// What a subscriber that has not yet seen the latest publication receives: the rejection when
/// the latest publication was one, and otherwise the accepted snapshot.
pub open spec fn latest_of<T, E>(accepted: Option<Arc<T>>, rejection: Option<Arc<E>>) -> Option<
    Result<Arc<T>, Arc<E>>,
> {
    match rejection {
        Some(e) => Some(Err(e)),
        None => match accepted {
            Some(a) => Some(Ok(a)),
            None => None,
        },
    }
}

impl<T, E> Publication<T, E> {
    /// The most recently accepted snapshot, absent until the first snapshot is accepted.
    pub closed spec fn accepted(&self) -> Option<Arc<T>> {
        self.accepted
    }

    /// The rejection of the most recent publication, absent while it was accepted.
    pub closed spec fn rejection(&self) -> Option<Arc<E>> {
        self.rejection
    }

    /// Counts publications, wrapping at `u64::MAX`.
    pub closed spec fn version(&self) -> u64 {
        self.version
    }

    /// What a subscriber receives for the latest publication.
    pub open spec fn latest(&self) -> Option<Result<Arc<T>, Arc<E>>> {
        latest_of(self.accepted(), self.rejection())
    }

    /// A state in which nothing has been published.
    pub fn new() -> (p: Self)
        ensures
            p.accepted() is None,
            p.rejection() is None,
            p.version() == 0,
    {
        Publication { accepted: None, rejection: None, version: 0 }
    }

    /// Returns the publication counter.
    pub fn current_version(&self) -> (v: u64)
        ensures
            v == self.version(),
    {
        self.version
    }

    /// Publishes an accepted snapshot.
    pub fn publish_accepted(&mut self, snapshot: T)
        ensures
            final(self).accepted() == Some(Arc::new(snapshot)),
            final(self).rejection() is None,
            final(self).version() == old(self).version().wrapping_add(1),
    {
        self.accepted = Some(Arc::new(snapshot));
        self.rejection = None;
        self.version = self.version.wrapping_add(1);
    }

    /// Publishes a rejection; the accepted snapshot is kept.
    pub fn publish_rejected(&mut self, error: E)
        ensures
            final(self).accepted() == old(self).accepted(),
            final(self).rejection() == Some(Arc::new(error)),
            final(self).version() == old(self).version().wrapping_add(1),
    {
        self.rejection = Some(Arc::new(error));
        self.version = self.version.wrapping_add(1);
    }
}

/// A subscriber's position in a product's publications.
///
/// A consumer reads [`current`](Self::current) and then polls [`changed`](Self::changed).
/// Cloning gives another consumer a position of its own; a slow consumer skips intermediate
/// publications and observes only the latest state.
pub struct Subscription<T, E> {
    seen: u64,
    marker: PhantomData<(T, E)>,
}

impl<T, E> Clone for Subscription<T, E> {
    fn clone(&self) -> (r: Self)
        ensures
            r.seen() == self.seen(),
    {
        Subscription { seen: self.seen, marker: PhantomData }
    }
}

impl<T, E> Subscription<T, E> {
    /// The publication this subscriber last observed.
    pub closed spec fn seen(&self) -> u64 {
        self.seen
    }

    /// A subscription that treats everything published into `p` so far as observed.
    pub fn observing(p: &Publication<T, E>) -> (s: Self)
        ensures
            s.seen() == p.version(),
    {
        Subscription { seen: p.current_version(), marker: PhantomData }
    }

    /// Returns the most recently accepted snapshot of `p`, absent until one is accepted.
    pub fn current(&self, p: &Publication<T, E>) -> (r: Option<Arc<T>>)
        ensures
            r == p.accepted(),
    {
        match &p.accepted {
            Some(a) => Some(share(a)),
            None => None,
        }
    }

    /// Returns what was newly published into `p` since this subscriber last looked, and marks it
    /// observed.
    ///
    /// Returns `None` when nothing new was published; otherwise the rejection of the latest
    /// publication, or its accepted snapshot.
    pub fn changed(&mut self, p: &Publication<T, E>) -> (r: Option<Result<Arc<T>, Arc<E>>>)
        ensures
            old(self).seen() == p.version() ==> r is None,
            old(self).seen() != p.version() ==> r == p.latest(),
            final(self).seen() == p.version(),
    {
        if self.seen == p.version {
            return None;
        }
        self.seen = p.version;
        match &p.rejection {
            Some(e) => Some(Err(share(e))),
            None => match &p.accepted {
                Some(a) => Some(Ok(share(a))),
                None => None,
            },
        }
    }
}

/// A subscriber that had observed everything before an acceptance is told of it: its next
/// `changed` yields exactly the accepted snapshot, which is also what `current` returns.
pub proof fn lemma_acceptance_reaches_up_to_date_subscriber<T, E>(
    before: Publication<T, E>,
    after: Publication<T, E>,
    subscriber: Subscription<T, E>,
    snapshot: T,
)
    requires
        subscriber.seen() == before.version(),
        after.accepted() == Some(Arc::new(snapshot)),
        after.rejection() is None,
        after.version() == before.version().wrapping_add(1),
    ensures
        subscriber.seen() != after.version(),
        after.latest() == Some(Ok::<Arc<T>, Arc<E>>(Arc::new(snapshot))),
{
}

/// A subscriber that had observed everything before a rejection is told of it, and the rejection
/// does not evict the accepted snapshot: `current` still returns what it returned before.
pub proof fn lemma_rejection_reaches_up_to_date_subscriber<T, E>(
    before: Publication<T, E>,
    after: Publication<T, E>,
    subscriber: Subscription<T, E>,
    error: E,
)
    requires
        subscriber.seen() == before.version(),
        after.accepted() == before.accepted(),
        after.rejection() == Some(Arc::new(error)),
        after.version() == before.version().wrapping_add(1),
    ensures
        subscriber.seen() != after.version(),
        after.latest() == Some(Err::<Arc<T>, Arc<E>>(Arc::new(error))),
        after.accepted() == before.accepted(),
{
}

} // verus!
