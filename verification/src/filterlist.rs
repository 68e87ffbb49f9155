//! Metric-name matchers used by the DogStatsD filters.

use vstd::prelude::*;

use crate::text::{is_prefix_of, str_eq, str_starts_with, views};

verus! {

/// Whether `name` is matched by `values`: by equality with an entry, or, with `match_prefix`,
/// by having an entry as a prefix.
pub open spec fn list_matches(values: Seq<Seq<char>>, match_prefix: bool, name: Seq<char>) -> bool {
    exists|i: int|
        0 <= i < values.len() && (if match_prefix {
            is_prefix_of(#[trigger] values[i], name)
        } else {
            values[i] == name
        })
}

/// A set of metric names, matched exactly or by prefix.
#[derive(Clone, Debug, PartialEq)]
pub struct Blocklist {
    values: Vec<String>,
    match_prefix: bool,
}

impl Blocklist {
    /// The entries of the list.
    pub closed spec fn entries(&self) -> Seq<Seq<char>> {
        views(self.values@)
    }

    /// Whether entries match as prefixes.
    pub closed spec fn prefix_mode(&self) -> bool {
        self.match_prefix
    }

    /// Whether the list matches `name`.
    pub open spec fn spec_contains(&self, name: Seq<char>) -> bool {
        list_matches(self.entries(), self.prefix_mode(), name)
    }

    /// Creates a matcher over `values`.
    pub fn new(values: Vec<String>, match_prefix: bool) -> (r: Self)
        ensures
            r.entries() == views(values@),
            r.prefix_mode() == match_prefix,
    {
        Blocklist { values, match_prefix }
    }

    /// Creates a matcher that matches nothing.
    pub fn empty() -> (r: Self)
        ensures
            r.entries() == Seq::<Seq<char>>::empty(),
            !r.prefix_mode(),
            forall|name: Seq<char>| !r.spec_contains(name),
    {
        let r = Blocklist { values: Vec::new(), match_prefix: false };
        assert(r.entries() =~= Seq::<Seq<char>>::empty());
        r
    }

    /// Returns the number of entries.
    pub fn len(&self) -> (n: usize)
        ensures
            n == self.entries().len(),
    {
        self.values.len()
    }

    /// Returns whether the list matches `name`.
    pub fn contains(&self, name: &str) -> (r: bool)
        ensures
            r == self.spec_contains(name@),
    {
        let mut i: usize = 0;
        while i < self.values.len()
            invariant
                i <= self.values.len(),
                forall|j: int|
                    0 <= j < i ==> !(if self.match_prefix {
                        is_prefix_of(#[trigger] views(self.values@)[j], name@)
                    } else {
                        views(self.values@)[j] == name@
                    }),
            decreases self.values.len() - i,
        {
            let entry = self.values[i].as_str();
            let hit = if self.match_prefix {
                str_starts_with(name, entry)
            } else {
                str_eq(entry, name)
            };
            if hit {
                assert(views(self.values@)[i as int] == self.values@[i as int]@);
                return true;
            }
            i = i + 1;
        }
        false
    }
}

} // verus!

verus! {

/// The filterlist and the legacy blocklist, of which the filterlist takes precedence when it is
/// non-empty.
#[derive(Clone, Debug, PartialEq)]
pub struct EffectiveFilterlist {
    metric_filterlist: Vec<String>,
    metric_filterlist_match_prefix: bool,
    metric_blocklist: Vec<String>,
    metric_blocklist_match_prefix: bool,
}

impl EffectiveFilterlist {
    /// The filterlist entries.
    pub closed spec fn filterlist(&self) -> Seq<Seq<char>> {
        views(self.metric_filterlist@)
    }

    /// Whether filterlist entries match as prefixes.
    pub closed spec fn filterlist_prefix(&self) -> bool {
        self.metric_filterlist_match_prefix
    }

    /// The legacy blocklist entries.
    pub closed spec fn blocklist(&self) -> Seq<Seq<char>> {
        views(self.metric_blocklist@)
    }

    /// Whether blocklist entries match as prefixes.
    pub closed spec fn blocklist_prefix(&self) -> bool {
        self.metric_blocklist_match_prefix
    }

    /// Whether the filterlist is the list in force.
    pub open spec fn spec_filterlist_active(&self) -> bool {
        self.filterlist().len() > 0
    }

    /// The entries in force.
    pub open spec fn effective(&self) -> Seq<Seq<char>> {
        if self.spec_filterlist_active() {
            self.filterlist()
        } else {
            self.blocklist()
        }
    }

    /// The prefix mode in force.
    pub open spec fn effective_prefix(&self) -> bool {
        if self.spec_filterlist_active() {
            self.filterlist_prefix()
        } else {
            self.blocklist_prefix()
        }
    }

    /// Creates the pair of lists.
    pub fn new(
        metric_filterlist: Vec<String>,
        metric_filterlist_match_prefix: bool,
        metric_blocklist: Vec<String>,
        metric_blocklist_match_prefix: bool,
    ) -> (r: Self)
        ensures
            r.filterlist() == views(metric_filterlist@),
            r.filterlist_prefix() == metric_filterlist_match_prefix,
            r.blocklist() == views(metric_blocklist@),
            r.blocklist_prefix() == metric_blocklist_match_prefix,
    {
        EffectiveFilterlist {
            metric_filterlist,
            metric_filterlist_match_prefix,
            metric_blocklist,
            metric_blocklist_match_prefix,
        }
    }

    /// Creates two empty lists, neither matching by prefix.
    pub fn empty() -> (r: Self)
        ensures
            r.filterlist() == Seq::<Seq<char>>::empty(),
            !r.filterlist_prefix(),
            r.blocklist() == Seq::<Seq<char>>::empty(),
            !r.blocklist_prefix(),
    {
        let r = Self::new(Vec::new(), false, Vec::new(), false);
        assert(r.filterlist() =~= Seq::<Seq<char>>::empty());
        assert(r.blocklist() =~= Seq::<Seq<char>>::empty());
        r
    }

    /// Returns whether the filterlist is the list in force.
    pub fn metric_filterlist_is_active(&self) -> (r: bool)
        ensures
            r == self.spec_filterlist_active(),
    {
        self.metric_filterlist.len() > 0
    }

    /// Replaces the filterlist.
    pub fn set_metric_filterlist(&mut self, values: Vec<String>)
        ensures
            final(self).filterlist() == views(values@),
            final(self).filterlist_prefix() == old(self).filterlist_prefix(),
            final(self).blocklist() == old(self).blocklist(),
            final(self).blocklist_prefix() == old(self).blocklist_prefix(),
    {
        self.metric_filterlist = values;
    }

    /// Replaces the blocklist.
    pub fn set_metric_blocklist(&mut self, values: Vec<String>)
        ensures
            final(self).filterlist() == old(self).filterlist(),
            final(self).filterlist_prefix() == old(self).filterlist_prefix(),
            final(self).blocklist() == views(values@),
            final(self).blocklist_prefix() == old(self).blocklist_prefix(),
    {
        self.metric_blocklist = values;
    }

    /// Sets whether filterlist entries match as prefixes.
    pub fn set_metric_filterlist_match_prefix(&mut self, match_prefix: bool)
        ensures
            final(self).filterlist() == old(self).filterlist(),
            final(self).filterlist_prefix() == match_prefix,
            final(self).blocklist() == old(self).blocklist(),
            final(self).blocklist_prefix() == old(self).blocklist_prefix(),
    {
        self.metric_filterlist_match_prefix = match_prefix;
    }

    /// Sets whether blocklist entries match as prefixes.
    pub fn set_metric_blocklist_match_prefix(&mut self, match_prefix: bool)
        ensures
            final(self).filterlist() == old(self).filterlist(),
            final(self).filterlist_prefix() == old(self).filterlist_prefix(),
            final(self).blocklist() == old(self).blocklist(),
            final(self).blocklist_prefix() == match_prefix,
    {
        self.metric_blocklist_match_prefix = match_prefix;
    }

    /// Returns the entries in force and their prefix mode.
    pub fn effective_values(&self) -> (r: (Vec<String>, bool))
        ensures
            views(r.0@) == self.effective(),
            r.1 == self.effective_prefix(),
    {
        if self.metric_filterlist.len() > 0 {
            (self.metric_filterlist.clone(), self.metric_filterlist_match_prefix)
        } else {
            (self.metric_blocklist.clone(), self.metric_blocklist_match_prefix)
        }
    }

    /// Returns the number of entries in force.
    pub fn effective_len(&self) -> (n: usize)
        ensures
            n == self.effective().len(),
    {
        if self.metric_filterlist.len() > 0 {
            self.metric_filterlist.len()
        } else {
            self.metric_blocklist.len()
        }
    }

    /// Builds the matcher for the entries in force.
    pub fn to_matcher(&self) -> (m: Blocklist)
        ensures
            m.entries() == self.effective(),
            m.prefix_mode() == self.effective_prefix(),
    {
        let (values, match_prefix) = self.effective_values();
        Blocklist::new(values, match_prefix)
    }
}

/// An exact entry also matches in prefix mode: switching a list to prefix matching never lets a
/// name through that it used to catch.
pub proof fn lemma_prefix_mode_catches_more(values: Seq<Seq<char>>, name: Seq<char>)
    requires
        list_matches(values, false, name),
    ensures
        list_matches(values, true, name),
{
    let i = choose|i: int| 0 <= i < values.len() && values[i] == name;
    assert(name.subrange(0, name.len() as int) =~= name);
    assert(is_prefix_of(values[i], name));
}

/// A list with no entries matches no name, whatever its mode.
pub proof fn lemma_empty_list_matches_nothing(match_prefix: bool, name: Seq<char>)
    ensures
        !list_matches(Seq::<Seq<char>>::empty(), match_prefix, name),
{
}

/// A name is matched by a list that holds it, in either mode, and by a list in prefix mode that
/// holds a prefix of it; in exact mode a list holding no entry equal to the name does not match it.
pub proof fn listed_names_match(values: Seq<Seq<char>>, match_prefix: bool, name: Seq<char>, i: int)
    requires
        0 <= i < values.len(),
    ensures
        values[i] == name ==> list_matches(values, match_prefix, name),
        is_prefix_of(values[i], name) ==> list_matches(values, true, name),
        (forall|k: int| 0 <= k < values.len() ==> values[k] != name) ==> !list_matches(
            values,
            false,
            name,
        ),
{
    if values[i] == name {
        assert(name.subrange(0, name.len() as int) =~= name);
        assert(is_prefix_of(values[i], name));
    }
}

/// The filterlist, when it has entries, is the list in force with its own prefix mode, and the
/// blocklist is then ignored; with an empty filterlist the blocklist is in force with its mode.
pub proof fn filterlist_takes_precedence(l: EffectiveFilterlist)
    ensures
        l.filterlist().len() > 0 ==> l.effective() == l.filterlist() && l.effective_prefix()
            == l.filterlist_prefix(),
        l.filterlist().len() == 0 ==> l.effective() == l.blocklist() && l.effective_prefix()
            == l.blocklist_prefix(),
{
}

} // verus!
