//! Publishing into a subscription by hand, so a subscriber can test its component without an
//! Agent.

use vstd::prelude::*;

use crate::remote_config::decoder::{
    build_result, evaluate, evaluates, sorted_by_id, Outcome, ProductDecoder,
};
use crate::remote_config::error::ApplyError;
use crate::remote_config::product::ConfigId;
use crate::remote_config::subscription::{Publication, Subscription};
use crate::text::str_eq;

verus! {

/// Publishes into a [`Subscription`] by hand.
///
/// A subscription observing the publisher behaves as it does in production: `current` keeps the
/// last accepted snapshot through a rejection, and each clone observes every publish.
pub struct TestPublisher<T, E = ApplyError> {
    state: Publication<T, E>,
}

/// Whether no two items share an ID.
pub open spec fn distinct_item_ids(items: Seq<(&str, &[u8])>) -> bool {
    forall|i: int, j: int| 0 <= i < j < items.len() ==> #[trigger] items[i].0@ != #[trigger] items[j].0@
}

/// Whether `assignment` holds the items, in order: each ID as a configuration ID, each payload as
/// bytes of its own.
pub open spec fn holds_items(items: Seq<(&str, &[u8])>, assignment: Seq<(ConfigId, Vec<u8>)>) -> bool {
    &&& assignment.len() == items.len()
    &&& forall|k: int|
        0 <= k < items.len() ==> #[trigger] assignment[k].0@ == items[k].0@ && assignment[k].1@
            == items[k].1@
}

/// Whether `after` is what publishing the outcome of a run of the decoder `start` over `sorted`,
/// the entries of `assignment` in ascending ID order, makes of `before`: the build's snapshot is
/// accepted, or its error rejected with the last accepted snapshot kept.
pub open spec fn publishes_run<P: ProductDecoder>(
    before: Publication<P::Snapshot, P::Error>,
    after: Publication<P::Snapshot, P::Error>,
    assignment: Seq<(ConfigId, Vec<u8>)>,
    sorted: Seq<(ConfigId, Vec<u8>)>,
    start: P,
) -> bool {
    &&& sorted_by_id(sorted)
    &&& sorted.to_multiset() == assignment.to_multiset()
    &&& after.version() == before.version().wrapping_add(1)
    &&& match build_result(start, sorted) {
        Ok(snapshot) => after.accepted() == Some(std::sync::Arc::new(snapshot))
            && after.rejection() is None,
        Err(error) => after.accepted() == before.accepted() && after.rejection() == Some(
            std::sync::Arc::new(error),
        ),
    }
}

/// Returns whether two items share an ID.
pub fn has_duplicate_ids(items: &Vec<(&str, &[u8])>) -> (r: bool)
    ensures
        r == !distinct_item_ids(items@),
{
    let mut i: usize = 0;
    while i < items.len()
        invariant
            i <= items.len(),
            forall|a: int, b: int|
                0 <= a < b < items@.len() && a < i ==> #[trigger] items@[a].0@ != #[trigger] items@[b].0@,
        decreases items.len() - i,
    {
        let mut j: usize = i + 1;
        while j < items.len()
            invariant
                i < items.len(),
                i + 1 <= j <= items.len(),
                forall|a: int, b: int|
                    0 <= a < b < items@.len() && a < i ==> #[trigger] items@[a].0@ != #[trigger] items@[b].0@,
                forall|b: int| i < b < j ==> items@[i as int].0@ != #[trigger] items@[b].0@,
            decreases items.len() - j,
        {
            if str_eq(items[i].0, items[j].0) {
                return true;
            }
            j = j + 1;
        }
        i = i + 1;
    }
    false
}

impl<T, E> TestPublisher<T, E> {
    /// The state the publisher has published.
    pub closed spec fn published(&self) -> Publication<T, E> {
        self.state
    }

    /// Creates a publisher and a subscription to it; nothing is published yet, so the
    /// subscription's `current` is `None` until the first successful publish.
    pub fn new() -> (r: (Self, Subscription<T, E>))
        ensures
            r.0.published().accepted() is None,
            r.0.published().rejection() is None,
            r.1.seen() == r.0.published().version(),
    {
        let state = Publication::new();
        let subscription = Subscription::observing(&state);
        (TestPublisher { state }, subscription)
    }

    /// The state subscribers read.
    pub fn state(&self) -> (p: &Publication<T, E>)
        ensures
            *p == self.published(),
    {
        &self.state
    }

    /// Publishes an accepted snapshot: every subscriber is notified, and `current` returns it.
    pub fn accept(&mut self, snapshot: T)
        ensures
            final(self).published().accepted() == Some(std::sync::Arc::new(snapshot)),
            final(self).published().rejection() is None,
            final(self).published().version() == old(self).published().version().wrapping_add(1),
    {
        self.state.publish_accepted(snapshot);
    }

    /// Publishes a rejection: every subscriber receives it from `changed`, and `current` keeps
    /// returning the last accepted snapshot.
    pub fn reject(&mut self, error: E)
        ensures
            final(self).published().accepted() == old(self).published().accepted(),
            final(self).published().rejection() == Some(std::sync::Arc::new(error)),
            final(self).published().version() == old(self).published().version().wrapping_add(1),
    {
        self.state.publish_rejected(error);
    }

    /// Publishes the outcome of a decoder run: an accepted build as [`accept`](Self::accept)
    /// does, a rejected build as [`reject`](Self::reject) does, and a panic not at all.
    pub fn publish(&mut self, outcome: Outcome<T, E>)
        ensures
            outcome matches Outcome::Accepted(s) ==> {
                &&& final(self).published().accepted() == Some(std::sync::Arc::new(s))
                &&& final(self).published().rejection() is None
                &&& final(self).published().version() == old(self).published().version().wrapping_add(1)
            },
            outcome matches Outcome::Rejected(e) ==> {
                &&& final(self).published().accepted() == old(self).published().accepted()
                &&& final(self).published().rejection() == Some(std::sync::Arc::new(e))
                &&& final(self).published().version() == old(self).published().version().wrapping_add(1)
            },
            outcome is Panicked ==> final(self).published() == old(self).published(),
    {
        match outcome {
            Outcome::Accepted(snapshot) => self.accept(snapshot),
            Outcome::Rejected(error) => self.reject(error),
            Outcome::Panicked => {},
        }
    }

    /// Runs `P` over an assignment of configurations and publishes the outcome, as the client's
    /// worker would.
    ///
    /// Each item is a configuration ID, such as `semantic.v1`, and its payload. An empty
    /// assignment is valid. Configuration IDs are unique within an assignment, so the items must
    /// not share an ID. The items are decoded in ascending ID order by a fresh decoder, the one
    /// [`Default`] gives; a successful build publishes its snapshot as [`accept`](Self::accept)
    /// does and a failed build its error as [`reject`](Self::reject) does.
    pub fn assign<P: ProductDecoder<Snapshot = T, Error = E>>(&mut self, items: Vec<(&str, &[u8])>)
        requires
            distinct_item_ids(items@),
        ensures
            exists|
                assignment: Seq<(ConfigId, Vec<u8>)>,
                sorted: Seq<(ConfigId, Vec<u8>)>,
                start: P,
            |
                #![trigger publishes_run(old(self).published(), final(self).published(), assignment, sorted, start)]
                call_ensures(P::default, (), start) && holds_items(items@, assignment) && publishes_run(
                    old(self).published(),
                    final(self).published(),
                    assignment,
                    sorted,
                    start,
                ),
    {
        let mut assignment: Vec<(ConfigId, Vec<u8>)> = Vec::new();
        let mut i: usize = 0;
        while i < items.len()
            invariant
                i <= items.len(),
                assignment@.len() == i,
                forall|k: int|
                    0 <= k < i ==> #[trigger] assignment@[k].0@ == items@[k].0@ && assignment@[k].1@
                        == items@[k].1@,
            decreases items.len() - i,
        {
            let (id, payload) = items[i];
            assignment.push((ConfigId::new(id), vstd::slice::slice_to_vec(payload)));
            i = i + 1;
        }
        let ghost given = assignment@;
        let evaluation = evaluate::<P>(assignment);
        let ghost (sorted, start) = choose|sorted: Seq<(ConfigId, Vec<u8>)>, start: P|
            call_ensures(P::default, (), start) && evaluates(evaluation, given, sorted, start);
        self.publish(evaluation.outcome);
        proof {
            assert(holds_items(items@, given));
            assert(publishes_run(old(self).published(), self.published(), given, sorted, start));
        }
    }
}

} // verus!
