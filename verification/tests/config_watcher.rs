use adp_config::config_watcher::{ChangeEvent, TotalConfigWatcher, WatchOutcome};

#[test]
fn no_diff_suppression() {
    let mut watcher = TotalConfigWatcher::new("log_level=info".to_string());
    let outcome = watcher.observe(ChangeEvent::Rebuilt("log_level=info".to_string()));
    assert!(matches!(outcome, WatchOutcome::Unchanged));
    assert_eq!(watcher.last(), "log_level=info");
}

#[test]
fn fires_on_real_change() {
    let mut watcher = TotalConfigWatcher::new("log_level=info".to_string());
    match watcher.observe(ChangeEvent::Rebuilt("log_level=debug".to_string())) {
        WatchOutcome::Changed(old) => assert_eq!(old, "log_level=info"),
        _ => panic!("a real change should fire"),
    }
    assert_eq!(watcher.last(), "log_level=debug");
}

#[test]
fn failures_and_lag_are_skipped() {
    let mut watcher = TotalConfigWatcher::new(1u32);
    assert!(matches!(watcher.observe(ChangeEvent::RebuildFailed), WatchOutcome::Skipped));
    assert!(matches!(watcher.observe(ChangeEvent::Lagged), WatchOutcome::Skipped));
    assert!(matches!(watcher.observe(ChangeEvent::Closed), WatchOutcome::Closed));
    assert_eq!(*watcher.last(), 1);
}
