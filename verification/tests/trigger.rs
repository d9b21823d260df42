use livepreview::bus::{Reception, ReloadBus};
use livepreview::trigger::{after_rebuild, BuildOutcome, ChangeSet};

#[test]
fn failed_rebuild_publishes_nothing_and_waiters_keep_waiting() {
    let mut bus = ReloadBus::new(100);
    let mut sub = bus.subscribe();
    assert_eq!(sub.poll(&bus), Reception::Pending);

    after_rebuild(&mut bus, BuildOutcome::Failure);
    assert_eq!(bus.published, 0);
    // The waiting subscriber stays blocked.
    assert_eq!(sub.poll(&bus), Reception::Pending);

    // Only a later successful rebuild unblocks it.
    after_rebuild(&mut bus, BuildOutcome::Success);
    assert_eq!(sub.poll(&bus), Reception::Message { seq: 0 });
}

#[test]
fn successful_rebuild_with_no_subscribers_is_cheap_and_safe() {
    let mut bus = ReloadBus::new(100);
    after_rebuild(&mut bus, BuildOutcome::Success);
    assert_eq!(bus.published, 1);
    assert_eq!(bus.subscribers, 0);
}

#[test]
fn change_set_carries_the_batch_that_prompted_the_rebuild() {
    let changes = ChangeSet {
        root: "src".to_string(),
        paths: vec!["src/chapter_1.md".to_string(), "src/SUMMARY.md".to_string()],
    };
    assert_eq!(changes.root, "src");
    assert_eq!(changes.paths.len(), 2);
}
