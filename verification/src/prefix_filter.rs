//! The DogStatsD listener-side transform: prepends the configured namespace to metric names and
//! drops metrics whose names the filterlist (or, when that is empty, the legacy blocklist) matches.

use vstd::prelude::*;

use crate::filterlist::{Blocklist, EffectiveFilterlist};
use crate::text::{chars_of, is_prefix_of, owned, push_char, push_str, str_starts_with, views};

verus! {

/// Typed prefix-filter settings, as delivered at startup and by dynamic updates.
#[derive(Clone, Debug, PartialEq)]
pub struct PrefixFilterConfig {
    /// Metric names (or prefixes) to drop, taking precedence over `metric_blocklist` when
    /// non-empty.
    pub metric_filterlist: Vec<String>,
    /// Whether `metric_filterlist` entries match as prefixes.
    pub metric_filterlist_match_prefix: bool,
    /// Legacy metric names (or prefixes) to drop.
    pub metric_blocklist: Vec<String>,
    /// Whether `metric_blocklist` entries match as prefixes.
    pub metric_blocklist_match_prefix: bool,
}

/// The namespaces that are never prefixed, used when none are configured.
pub open spec fn default_prefix_blocklist() -> Seq<Seq<char>> {
    seq![
        "datadog.agent"@, "datadog.dogstatsd"@, "datadog.process"@, "datadog.trace_agent"@,
        "datadog.tracer"@, "activemq"@, "activemq_58"@, "airflow"@, "cassandra"@, "confluent"@,
        "hazelcast"@, "hive"@, "ignite"@, "jboss"@, "jvm"@, "kafka"@, "presto"@, "sidekiq"@,
        "solr"@, "tomcat"@, "runtime"@,
    ]
}

/// Returns the namespaces that are never prefixed, used when none are configured.
pub fn default_metric_prefix_blocklist() -> (r: Vec<String>)
    ensures
        views(r@) == default_prefix_blocklist(),
{
    let mut r: Vec<String> = Vec::new();
    r.push(owned("datadog.agent"));
    r.push(owned("datadog.dogstatsd"));
    r.push(owned("datadog.process"));
    r.push(owned("datadog.trace_agent"));
    r.push(owned("datadog.tracer"));
    r.push(owned("activemq"));
    r.push(owned("activemq_58"));
    r.push(owned("airflow"));
    r.push(owned("cassandra"));
    r.push(owned("confluent"));
    r.push(owned("hazelcast"));
    r.push(owned("hive"));
    r.push(owned("ignite"));
    r.push(owned("jboss"));
    r.push(owned("jvm"));
    r.push(owned("kafka"));
    r.push(owned("presto"));
    r.push(owned("sidekiq"));
    r.push(owned("solr"));
    r.push(owned("tomcat"));
    r.push(owned("runtime"));
    assert(views(r@) =~= default_prefix_blocklist());
    r
}

/// The namespace with a trailing `.` added when it is non-empty and lacks one.
pub open spec fn normalized_prefix(p: Seq<char>) -> Seq<char> {
    if p.len() > 0 && p.last() != '.' {
        p.push('.')
    } else {
        p
    }
}

/// Counters a filter keeps about itself.
#[derive(Clone, Copy, Debug, PartialEq, Eq)]
pub struct FilterlistTelemetry {
    /// The number of entries in the list in force.
    pub filterlist_size: usize,
    /// The number of reconfigurations that touched the list in force.
    pub filterlist_updates: u64,
    /// The number of metrics dropped.
    pub listener_filtered_points: u64,
}

/// A counter after one increment, wrapping at the top of its range.
pub open spec fn bumped(c: u64) -> u64 {
    if c < u64::MAX {
        (c + 1) as u64
    } else {
        0
    }
}

/// A counter after an increment that happens only when `flag` holds.
pub open spec fn bumped_if(c: u64, flag: bool) -> u64 {
    if flag {
        bumped(c)
    } else {
        c
    }
}

fn bump(c: u64) -> (r: u64)
    ensures
        r == bumped(c),
{
    if c < u64::MAX {
        c + 1
    } else {
        0
    }
}

impl FilterlistTelemetry {
    /// Counters that start at zero.
    pub fn new() -> (r: Self)
        ensures
            r.filterlist_size == 0,
            r.filterlist_updates == 0,
            r.listener_filtered_points == 0,
    {
        FilterlistTelemetry { filterlist_size: 0, filterlist_updates: 0, listener_filtered_points: 0 }
    }
}

/// DogStatsD prefix filter settings.
#[derive(Clone, Debug, PartialEq)]
pub struct DogStatsDPrefixFilterConfiguration {
    metric_prefix: String,
    metric_prefix_blocklist: Vec<String>,
    metric_filterlist: Vec<String>,
    metric_filterlist_match_prefix: bool,
    metric_blocklist: Vec<String>,
    metric_blocklist_match_prefix: bool,
}

impl DogStatsDPrefixFilterConfiguration {
    /// The configured namespace, as given.
    pub closed spec fn prefix(&self) -> Seq<char> {
        self.metric_prefix@
    }

    /// The namespaces that are never prefixed.
    pub closed spec fn prefix_blocklist(&self) -> Seq<Seq<char>> {
        views(self.metric_prefix_blocklist@)
    }

    /// The filterlist and blocklist settings.
    pub closed spec fn lists(&self) -> (Seq<Seq<char>>, bool, Seq<Seq<char>>, bool) {
        (
            views(self.metric_filterlist@),
            self.metric_filterlist_match_prefix,
            views(self.metric_blocklist@),
            self.metric_blocklist_match_prefix,
        )
    }

    /// Creates settings from each value.
    pub fn new(
        metric_prefix: String,
        metric_prefix_blocklist: Vec<String>,
        metric_filterlist: Vec<String>,
        metric_filterlist_match_prefix: bool,
        metric_blocklist: Vec<String>,
        metric_blocklist_match_prefix: bool,
    ) -> (r: Self)
        ensures
            r.prefix() == metric_prefix@,
            r.prefix_blocklist() == views(metric_prefix_blocklist@),
            r.lists() == (
                views(metric_filterlist@),
                metric_filterlist_match_prefix,
                views(metric_blocklist@),
                metric_blocklist_match_prefix,
            ),
    {
        DogStatsDPrefixFilterConfiguration {
            metric_prefix,
            metric_prefix_blocklist,
            metric_filterlist,
            metric_filterlist_match_prefix,
            metric_blocklist,
            metric_blocklist_match_prefix,
        }
    }

    /// Creates settings from native prefix-filter configuration: no namespace, the default
    /// namespace blocklist, and the native lists.
    pub fn from_native(native: &PrefixFilterConfig) -> (r: Self)
        ensures
            r.prefix() == Seq::<char>::empty(),
            r.prefix_blocklist() == default_prefix_blocklist(),
            r.lists() == (
                views(native.metric_filterlist@),
                native.metric_filterlist_match_prefix,
                views(native.metric_blocklist@),
                native.metric_blocklist_match_prefix,
            ),
    {
        Self::new(
            String::new(),
            default_metric_prefix_blocklist(),
            native.metric_filterlist.clone(),
            native.metric_filterlist_match_prefix,
            native.metric_blocklist.clone(),
            native.metric_blocklist_match_prefix,
        )
    }

    /// Builds the transform: the namespace gains a trailing `.`, the matcher is the list in force,
    /// and the size gauge reports its length.
    pub fn build(&self) -> (f: DogStatsDPrefixFilter)
        ensures
            f.prefix() == normalized_prefix(self.prefix()),
            self.prefix().len() > 0 && self.prefix().last() != '.' ==> f.prefix() == self.prefix()
                + seq!['.'],
            !(self.prefix().len() > 0 && self.prefix().last() != '.') ==> f.prefix() == self.prefix(),
            f.prefix_blocklist() == self.prefix_blocklist(),
            f.lists().filterlist() == self.lists().0,
            f.lists().filterlist_prefix() == self.lists().1,
            f.lists().blocklist() == self.lists().2,
            f.lists().blocklist_prefix() == self.lists().3,
            f.matcher().entries() == f.lists().effective(),
            f.matcher().prefix_mode() == f.lists().effective_prefix(),
            f.telemetry().filterlist_size == f.lists().effective().len(),
            f.telemetry().filterlist_updates == 0,
            f.telemetry().listener_filtered_points == 0,
    {
        let mut metric_prefix = self.metric_prefix.clone();
        let chars = chars_of(metric_prefix.as_str());
        if chars.len() > 0 && chars[chars.len() - 1] != '.' {
            push_char(&mut metric_prefix, '.');
        }
        let effective = EffectiveFilterlist::new(
            self.metric_filterlist.clone(),
            self.metric_filterlist_match_prefix,
            self.metric_blocklist.clone(),
            self.metric_blocklist_match_prefix,
        );
        let mut filter = DogStatsDPrefixFilter::new(
            metric_prefix,
            self.metric_prefix_blocklist.clone(),
            Blocklist::empty(),
            effective,
        );
        filter.sync_effective_blocklist(false);
        filter
    }
}

/// The DogStatsD prefix filter transform.
#[derive(Clone, Debug)]
pub struct DogStatsDPrefixFilter {
    metric_prefix: String,
    metric_prefix_blocklist: Vec<String>,
    matcher: Blocklist,
    effective_filterlist: EffectiveFilterlist,
    telemetry: FilterlistTelemetry,
}

impl DogStatsDPrefixFilter {
    /// The namespace prepended to metric names.
    pub closed spec fn prefix(&self) -> Seq<char> {
        self.metric_prefix@
    }

    /// The namespaces that are never prefixed.
    pub closed spec fn prefix_blocklist(&self) -> Seq<Seq<char>> {
        views(self.metric_prefix_blocklist@)
    }

    /// The matcher metric names are checked against.
    pub closed spec fn matcher(&self) -> Blocklist {
        self.matcher
    }

    /// The filterlist and blocklist the matcher is rebuilt from.
    pub closed spec fn lists(&self) -> EffectiveFilterlist {
        self.effective_filterlist
    }

    /// The counters.
    pub closed spec fn telemetry(&self) -> FilterlistTelemetry {
        self.telemetry
    }

    /// Whether `name` starts with a namespace that must not be prefixed.
    pub open spec fn spec_has_excluded_prefix(&self, name: Seq<char>) -> bool {
        self.prefix().len() > 0 && exists|i: int|
            0 <= i < self.prefix_blocklist().len() && is_prefix_of(
                #[trigger] self.prefix_blocklist()[i],
                name,
            )
    }

    /// The name a metric is checked and kept under.
    pub open spec fn renamed(&self, name: Seq<char>) -> Seq<char> {
        if self.prefix().len() == 0 || self.spec_has_excluded_prefix(name) {
            name
        } else {
            self.prefix() + name
        }
    }

    /// Creates a filter from its parts, with counters at zero.
    pub fn new(
        metric_prefix: String,
        metric_prefix_blocklist: Vec<String>,
        matcher: Blocklist,
        effective_filterlist: EffectiveFilterlist,
    ) -> (f: Self)
        ensures
            f.prefix() == metric_prefix@,
            f.prefix_blocklist() == views(metric_prefix_blocklist@),
            f.matcher() == matcher,
            f.lists() == effective_filterlist,
            f.telemetry() == FilterlistTelemetry::new_spec(),
    {
        DogStatsDPrefixFilter {
            metric_prefix,
            metric_prefix_blocklist,
            matcher,
            effective_filterlist,
            telemetry: FilterlistTelemetry::new(),
        }
    }

    /// Returns the counters.
    pub fn get_telemetry(&self) -> (t: FilterlistTelemetry)
        ensures
            t == self.telemetry(),
    {
        self.telemetry
    }

    /// Returns the matcher in use.
    pub fn get_matcher(&self) -> (m: &Blocklist)
        ensures
            *m == self.matcher(),
    {
        &self.matcher
    }

    /// Rebuilds the matcher from the list in force, updates the size gauge, and counts a
    /// reconfiguration when `count_update` holds.
    pub fn sync_effective_blocklist(&mut self, count_update: bool)
        ensures
            final(self).prefix() == old(self).prefix(),
            final(self).prefix_blocklist() == old(self).prefix_blocklist(),
            final(self).lists() == old(self).lists(),
            final(self).matcher().entries() == old(self).lists().effective(),
            final(self).matcher().prefix_mode() == old(self).lists().effective_prefix(),
            final(self).telemetry().filterlist_size == old(self).lists().effective().len(),
            final(self).telemetry().filterlist_updates == bumped_if(
                old(self).telemetry().filterlist_updates,
                count_update,
            ),
            final(self).telemetry().listener_filtered_points == old(
                self,
            ).telemetry().listener_filtered_points,
    {
        self.matcher = self.effective_filterlist.to_matcher();
        self.telemetry.filterlist_size = self.effective_filterlist.effective_len();
        if count_update {
            self.telemetry.filterlist_updates = bump(self.telemetry.filterlist_updates);
        }
    }

    /// Returns whether `name` starts with a namespace that must not be prefixed.
    pub fn has_excluded_prefix(&self, name: &str) -> (r: bool)
        ensures
            r == self.spec_has_excluded_prefix(name@),
    {
        if self.metric_prefix.as_str().unicode_len() == 0 {
            return false;
        }
        let mut i: usize = 0;
        while i < self.metric_prefix_blocklist.len()
            invariant
                self.prefix().len() > 0,
                i <= self.metric_prefix_blocklist.len(),
                forall|j: int|
                    0 <= j < i ==> !is_prefix_of(#[trigger] self.prefix_blocklist()[j], name@),
            decreases self.metric_prefix_blocklist.len() - i,
        {
            if str_starts_with(name, self.metric_prefix_blocklist[i].as_str()) {
                assert(self.prefix_blocklist()[i as int] == self.metric_prefix_blocklist@[i as int]@);
                return true;
            }
            i = i + 1;
        }
        false
    }

    /// Processes one metric name: returns whether the metric is kept. A kept metric carries its
    /// new name; a dropped one keeps its name and is counted.
    pub fn process_metric(&mut self, name: &mut String) -> (keep: bool)
        ensures
            keep == !old(self).matcher().spec_contains(old(self).renamed(old(name)@)),
            keep ==> final(name)@ == old(self).renamed(old(name)@),
            !keep ==> final(name)@ == old(name)@,
            final(self).prefix() == old(self).prefix(),
            final(self).prefix_blocklist() == old(self).prefix_blocklist(),
            final(self).matcher() == old(self).matcher(),
            final(self).lists() == old(self).lists(),
            final(self).telemetry().filterlist_size == old(self).telemetry().filterlist_size,
            final(self).telemetry().filterlist_updates == old(self).telemetry().filterlist_updates,
            final(self).telemetry().listener_filtered_points == bumped_if(
                old(self).telemetry().listener_filtered_points,
                !keep,
            ),
    {
        let prefix_empty = self.metric_prefix.as_str().unicode_len() == 0;
        let new_name = if prefix_empty || self.has_excluded_prefix(name.as_str()) {
            name.clone()
        } else {
            let mut prefixed = self.metric_prefix.clone();
            push_str(&mut prefixed, name.as_str());
            prefixed
        };
        if self.matcher.contains(new_name.as_str()) {
            self.telemetry.listener_filtered_points = bump(self.telemetry.listener_filtered_points);
            return false;
        }
        *name = new_name;
        true
    }

    /// Replaces the filterlist; counts a reconfiguration when the old or the new filterlist is
    /// non-empty.
    pub fn update_metric_filterlist(&mut self, metric_filterlist: Vec<String>)
        ensures
            final(self).prefix() == old(self).prefix(),
            final(self).prefix_blocklist() == old(self).prefix_blocklist(),
            final(self).lists().filterlist() == views(metric_filterlist@),
            final(self).lists().filterlist_prefix() == old(self).lists().filterlist_prefix(),
            final(self).lists().blocklist() == old(self).lists().blocklist(),
            final(self).lists().blocklist_prefix() == old(self).lists().blocklist_prefix(),
            final(self).matcher().entries() == final(self).lists().effective(),
            final(self).matcher().prefix_mode() == final(self).lists().effective_prefix(),
            final(self).telemetry().filterlist_size == final(self).lists().effective().len(),
            final(self).telemetry().filterlist_updates == bumped_if(
                old(self).telemetry().filterlist_updates,
                old(self).lists().spec_filterlist_active() || metric_filterlist@.len() > 0,
            ),
            final(self).telemetry().listener_filtered_points == old(
                self,
            ).telemetry().listener_filtered_points,
    {
        let count_update = self.effective_filterlist.metric_filterlist_is_active()
            || metric_filterlist.len() > 0;
        self.effective_filterlist.set_metric_filterlist(metric_filterlist);
        self.sync_effective_blocklist(count_update);
    }

    /// Replaces the legacy blocklist; counts a reconfiguration when the blocklist is in force.
    pub fn update_metric_blocklist(&mut self, metric_blocklist: Vec<String>)
        ensures
            final(self).prefix() == old(self).prefix(),
            final(self).prefix_blocklist() == old(self).prefix_blocklist(),
            final(self).lists().filterlist() == old(self).lists().filterlist(),
            final(self).lists().filterlist_prefix() == old(self).lists().filterlist_prefix(),
            final(self).lists().blocklist() == views(metric_blocklist@),
            final(self).lists().blocklist_prefix() == old(self).lists().blocklist_prefix(),
            final(self).matcher().entries() == final(self).lists().effective(),
            final(self).matcher().prefix_mode() == final(self).lists().effective_prefix(),
            final(self).telemetry().filterlist_size == final(self).lists().effective().len(),
            final(self).telemetry().filterlist_updates == bumped_if(
                old(self).telemetry().filterlist_updates,
                !old(self).lists().spec_filterlist_active(),
            ),
            final(self).telemetry().listener_filtered_points == old(
                self,
            ).telemetry().listener_filtered_points,
    {
        let count_update = !self.effective_filterlist.metric_filterlist_is_active();
        self.effective_filterlist.set_metric_blocklist(metric_blocklist);
        self.sync_effective_blocklist(count_update);
    }

    /// Sets the filterlist prefix mode; counts a reconfiguration when the filterlist is in force.
    pub fn update_metric_filterlist_match_prefix(&mut self, match_prefix: bool)
        ensures
            final(self).prefix() == old(self).prefix(),
            final(self).prefix_blocklist() == old(self).prefix_blocklist(),
            final(self).lists().filterlist() == old(self).lists().filterlist(),
            final(self).lists().filterlist_prefix() == match_prefix,
            final(self).lists().blocklist() == old(self).lists().blocklist(),
            final(self).lists().blocklist_prefix() == old(self).lists().blocklist_prefix(),
            final(self).matcher().entries() == final(self).lists().effective(),
            final(self).matcher().prefix_mode() == final(self).lists().effective_prefix(),
            final(self).telemetry().filterlist_size == final(self).lists().effective().len(),
            final(self).telemetry().filterlist_updates == bumped_if(
                old(self).telemetry().filterlist_updates,
                old(self).lists().spec_filterlist_active(),
            ),
            final(self).telemetry().listener_filtered_points == old(
                self,
            ).telemetry().listener_filtered_points,
    {
        let count_update = self.effective_filterlist.metric_filterlist_is_active();
        self.effective_filterlist.set_metric_filterlist_match_prefix(match_prefix);
        self.sync_effective_blocklist(count_update);
    }

    /// Sets the blocklist prefix mode; counts a reconfiguration when the blocklist is in force.
    pub fn update_metric_blocklist_match_prefix(&mut self, match_prefix: bool)
        ensures
            final(self).prefix() == old(self).prefix(),
            final(self).prefix_blocklist() == old(self).prefix_blocklist(),
            final(self).lists().filterlist() == old(self).lists().filterlist(),
            final(self).lists().filterlist_prefix() == old(self).lists().filterlist_prefix(),
            final(self).lists().blocklist() == old(self).lists().blocklist(),
            final(self).lists().blocklist_prefix() == match_prefix,
            final(self).matcher().entries() == final(self).lists().effective(),
            final(self).matcher().prefix_mode() == final(self).lists().effective_prefix(),
            final(self).telemetry().filterlist_size == final(self).lists().effective().len(),
            final(self).telemetry().filterlist_updates == bumped_if(
                old(self).telemetry().filterlist_updates,
                !old(self).lists().spec_filterlist_active(),
            ),
            final(self).telemetry().listener_filtered_points == old(
                self,
            ).telemetry().listener_filtered_points,
    {
        let count_update = !self.effective_filterlist.metric_filterlist_is_active();
        self.effective_filterlist.set_metric_blocklist_match_prefix(match_prefix);
        self.sync_effective_blocklist(count_update);
    }

    /// Applies a refreshed prefix-filter configuration: afterwards the lists are exactly the
    /// update's and the matcher is the list in force.
    pub fn apply_dynamic_update(&mut self, new_config: PrefixFilterConfig)
        ensures
            final(self).prefix() == old(self).prefix(),
            final(self).prefix_blocklist() == old(self).prefix_blocklist(),
            final(self).lists().filterlist() == views(new_config.metric_filterlist@),
            final(self).lists().filterlist_prefix() == new_config.metric_filterlist_match_prefix,
            final(self).lists().blocklist() == views(new_config.metric_blocklist@),
            final(self).lists().blocklist_prefix() == new_config.metric_blocklist_match_prefix,
            final(self).matcher().entries() == final(self).lists().effective(),
            final(self).matcher().prefix_mode() == final(self).lists().effective_prefix(),
            final(self).telemetry().filterlist_size == final(self).lists().effective().len(),
            final(self).telemetry().filterlist_updates == dynamic_update_count(
                old(self).telemetry().filterlist_updates,
                old(self).lists().spec_filterlist_active(),
                new_config.metric_filterlist@.len() > 0,
            ),
            final(self).telemetry().listener_filtered_points == old(
                self,
            ).telemetry().listener_filtered_points,
    {
        let PrefixFilterConfig {
            metric_filterlist,
            metric_filterlist_match_prefix,
            metric_blocklist,
            metric_blocklist_match_prefix,
        } = new_config;
        self.update_metric_filterlist(metric_filterlist);
        self.update_metric_filterlist_match_prefix(metric_filterlist_match_prefix);
        self.update_metric_blocklist(metric_blocklist);
        self.update_metric_blocklist_match_prefix(metric_blocklist_match_prefix);
    }
}

impl FilterlistTelemetry {
    /// Counters at zero.
    pub open spec fn new_spec() -> FilterlistTelemetry {
        FilterlistTelemetry { filterlist_size: 0, filterlist_updates: 0, listener_filtered_points: 0 }
    }
}

/// The reconfiguration counter after a dynamic update, given whether the filterlist was in force
/// before and whether the new filterlist is non-empty: the filterlist replacement counts when
/// either holds, the filterlist mode change counts when the new filterlist is in force, and each
/// blocklist change counts when it is not.
pub open spec fn dynamic_update_count(c: u64, was_active: bool, now_active: bool) -> u64 {
    bumped_if(
        bumped_if(bumped_if(bumped_if(c, was_active || now_active), now_active), !now_active),
        !now_active,
    )
}

/// A built filter's namespace is the configured one ending in a `.`: a non-empty namespace
/// without a trailing `.` gains exactly one, any other namespace is kept as configured, and so a
/// non-empty built namespace always ends in `.`, followed directly by the metric name.
pub proof fn built_namespace_ends_in_dot(p: Seq<char>, name: Seq<char>)
    ensures
        p.len() > 0 && p.last() != '.' ==> normalized_prefix(p) == p + seq!['.'],
        p.len() == 0 ==> normalized_prefix(p).len() == 0,
        p.len() > 0 && p.last() == '.' ==> normalized_prefix(p) == p,
        normalized_prefix(p).len() > 0 ==> normalized_prefix(p).last() == '.',
        p.len() > 0 && p.last() != '.' ==> normalized_prefix(p) + name == p + seq!['.'] + name,
{
}

/// The name a metric is kept under: with an empty namespace, or when the name starts with one
/// of the excluded prefixes, the name as it came; otherwise the namespace followed by the name.
pub proof fn kept_metric_names(f: DogStatsDPrefixFilter, name: Seq<char>)
    ensures
        f.prefix().len() == 0 ==> f.renamed(name) == name,
        (exists|i: int|
            0 <= i < f.prefix_blocklist().len() && is_prefix_of(#[trigger] f.prefix_blocklist()[i], name))
            ==> f.renamed(name) == name,
        f.prefix().len() > 0 && (forall|i: int|
            0 <= i < f.prefix_blocklist().len() ==> !is_prefix_of(#[trigger] f.prefix_blocklist()[i], name))
            ==> f.renamed(name) == f.prefix() + name,
{
}

} // verus!
