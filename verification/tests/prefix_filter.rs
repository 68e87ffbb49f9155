use adp_config::filterlist::{Blocklist, EffectiveFilterlist};
use adp_config::prefix_filter::{DogStatsDPrefixFilter, PrefixFilterConfig};

fn strings(items: &[&str]) -> Vec<String> {
    items.iter().map(|s| s.to_string()).collect()
}

fn filter(prefix: &str, prefix_blocklist: &[&str], matcher: Blocklist, lists: EffectiveFilterlist) -> DogStatsDPrefixFilter {
    DogStatsDPrefixFilter::new(prefix.to_string(), strings(prefix_blocklist), matcher, lists)
}

fn keeps(filter: &mut DogStatsDPrefixFilter, name: &str) -> (bool, String) {
    let mut name = name.to_string();
    let keep = filter.process_metric(&mut name);
    (keep, name)
}

#[test]
fn test_metric_prefix_add() {
    let mut filter = filter("foo.", &[], Blocklist::empty(), EffectiveFilterlist::empty());
    let (keep, name) = keeps(&mut filter, "bar");
    assert!(keep);
    assert_eq!(name, "foo.bar");
}

#[test]
fn test_metric_prefix_blocklist() {
    let mut filter = filter("foo", &["foo", "bar"], Blocklist::empty(), EffectiveFilterlist::empty());
    let (keep, name) = keeps(&mut filter, "barbar");
    assert!(keep);
    assert_eq!(name, "barbar");
}

#[test]
fn test_metric_blocklist() {
    let mut filter = filter("", &[], Blocklist::new(strings(&["foobar", "test"]), false), EffectiveFilterlist::empty());
    assert!(!keeps(&mut filter, "foobar").0);
    let (keep, name) = keeps(&mut filter, "foo");
    assert!(keep);
    assert_eq!(name, "foo");
}

#[test]
fn test_metric_blocklist_with_metric_prefix() {
    let mut filter1 = filter("foo.", &[], Blocklist::new(strings(&["foo.bar", "test"]), false), EffectiveFilterlist::empty());
    assert!(!keeps(&mut filter1, "bar").0);

    let mut filter2 = filter("foo.", &["foo"], Blocklist::empty(), EffectiveFilterlist::empty());
    let (keep, name) = keeps(&mut filter2, "foo");
    assert!(keep);
    assert_eq!(name, "foo");
}

#[test]
fn test_metric_match_prefix_without_added_prefix() {
    let mut filter = filter("", &[], Blocklist::new(strings(&["b", "test"]), true), EffectiveFilterlist::empty());
    // "bar" has the prefix "b".
    assert!(!keeps(&mut filter, "bar").0);
    // "test" has the prefix "test".
    assert!(!keeps(&mut filter, "test").0);
}

#[test]
fn test_metric_match_prefix_with_added_prefix() {
    let mut filter = filter("foo", &[], Blocklist::new(strings(&["fo", "test"]), true), EffectiveFilterlist::empty());
    // The prefixed name starts with "fo".
    assert!(!keeps(&mut filter, "bar").0);
}

#[test]
fn test_metric_blocklist_dynamic_update() {
    let mut filter = filter(
        "",
        &[],
        Blocklist::new(strings(&["foobar", "test"]), false),
        EffectiveFilterlist::new(Vec::new(), false, strings(&["foobar", "test"]), false),
    );

    assert!(!keeps(&mut filter, "foobar").0);
    let (keep, name) = keeps(&mut filter, "foo");
    assert!(keep);
    assert_eq!(name, "foo");

    // A typed dynamic update swaps the blocklist to ["foo"].
    filter.apply_dynamic_update(PrefixFilterConfig {
        metric_filterlist: Vec::new(),
        metric_filterlist_match_prefix: false,
        metric_blocklist: strings(&["foo"]),
        metric_blocklist_match_prefix: false,
    });

    // "foobar" is taken off the blocklist.
    let (keep, name) = keeps(&mut filter, "foobar");
    assert!(keep);
    assert_eq!(name, "foobar");

    // "foo" is added to the blocklist.
    assert!(!keeps(&mut filter, "foo").0);

    // A further typed update adds "baz" to the metric filterlist (keeping the blocklist).
    filter.apply_dynamic_update(PrefixFilterConfig {
        metric_filterlist: strings(&["baz"]),
        metric_filterlist_match_prefix: false,
        metric_blocklist: strings(&["foo"]),
        metric_blocklist_match_prefix: false,
    });

    // "baz" is added to the filterlist.
    assert!(!keeps(&mut filter, "baz").0);
}

#[test]
fn test_metric_filterlist_match_prefix_dynamic_update_is_applied() {
    let mut filter = filter(
        "",
        &[],
        Blocklist::new(strings(&["foo"]), false),
        EffectiveFilterlist::new(strings(&["foo"]), false, Vec::new(), false),
    );

    assert!(keeps(&mut filter, "foo.bar").0);

    // A typed dynamic update enables match-prefix on the filterlist.
    filter.apply_dynamic_update(PrefixFilterConfig {
        metric_filterlist: strings(&["foo"]),
        metric_filterlist_match_prefix: true,
        metric_blocklist: Vec::new(),
        metric_blocklist_match_prefix: false,
    });

    assert!(!keeps(&mut filter, "foo.bar").0);
    assert_eq!(filter.get_matcher(), &Blocklist::new(strings(&["foo"]), true));
}

#[test]
fn telemetry_only_counts_active_filterlist_updates() {
    let mut filter = filter(
        "",
        &[],
        Blocklist::empty(),
        EffectiveFilterlist::new(strings(&["preferred"]), false, strings(&["legacy"]), false),
    );

    filter.sync_effective_blocklist(false);
    filter.update_metric_blocklist(strings(&["ignored", "still_ignored"]));

    assert_eq!(filter.get_telemetry().filterlist_updates, 0);
    assert_eq!(filter.get_telemetry().filterlist_size, 1);

    assert!(!keeps(&mut filter, "preferred").0);
    assert!(keeps(&mut filter, "ignored").0);

    filter.update_metric_filterlist(Vec::new());

    assert_eq!(filter.get_telemetry().filterlist_updates, 1);
    assert_eq!(filter.get_telemetry().filterlist_size, 2);

    assert!(!keeps(&mut filter, "ignored").0);
}

#[test]
fn telemetry_counts_active_reconfiguration_even_if_matcher_is_unchanged() {
    let mut filter = filter(
        "",
        &[],
        Blocklist::empty(),
        EffectiveFilterlist::new(strings(&["foo"]), true, Vec::new(), false),
    );

    filter.sync_effective_blocklist(false);
    filter.update_metric_filterlist(strings(&["foo", "foobar"]));

    assert_eq!(filter.get_telemetry().filterlist_updates, 1);
    assert_eq!(filter.get_telemetry().filterlist_size, 2);

    assert!(!keeps(&mut filter, "foobar.baz").0);
}

#[test]
fn telemetry_counts_listener_filtered_points() {
    let mut filter = filter("", &[], Blocklist::new(strings(&["foo", "bar"]), true), EffectiveFilterlist::empty());

    assert!(!keeps(&mut filter, "foo").0);
    assert!(!keeps(&mut filter, "bar.baz").0);

    assert_eq!(filter.get_telemetry().listener_filtered_points, 2);
}

#[test]
fn kept_metrics_are_not_counted_as_filtered() {
    let mut filter = filter("ns", &[], Blocklist::new(strings(&["ns.drop"]), false), EffectiveFilterlist::empty());
    let (keep, name) = keeps(&mut filter, "keep");
    assert!(keep);
    assert_eq!(name, "nskeep");
    assert!(!keeps(&mut filter, ".drop").0);
    assert_eq!(filter.get_telemetry().listener_filtered_points, 1);
}
