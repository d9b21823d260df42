//! The rebuild trigger: bridges the external file watcher to the reload
//! bus. For each batch of changed files the watcher delivers, the caller
//! re-runs the external builder and reports the outcome here; a successful
//! rebuild publishes exactly one reload notification, a failed one
//! publishes nothing, so stale content stays served and waiting
//! connections keep waiting.

use crate::bus::ReloadBus;
use crate::bus::Reception;
use crate::bus::Subscriber;
use vstd::prelude::*;

verus! {

/// One batch of changes delivered by the watcher: the watched root and the
/// paths that changed. Consumed once, to prompt a rebuild, and discarded.
pub struct ChangeSet {
    /// The directory the watcher observes.
    pub root: String,
    /// The files of that directory reported changed, as one batch.
    pub paths: Vec<String>,
}

/// How one invocation of the external builder ended.
#[derive(Clone, Copy, PartialEq, Eq, Structural, Debug)]
pub enum BuildOutcome {
    Success,
    Failure,
}

/// The trigger's one decision: publish a reload notification exactly when
/// the rebuild succeeded; on failure, leave the bus untouched.
pub fn after_rebuild(bus: &mut ReloadBus, outcome: BuildOutcome)
    requires
        old(bus).published < u64::MAX,
    ensures
        outcome is Success ==> *final(bus) == old(bus).spec_publish(),
        outcome is Failure ==> *final(bus) == *old(bus),
{
    match outcome {
        BuildOutcome::Success => bus.publish(),
        BuildOutcome::Failure => {},
    }
}

/// Rebuild-failure suppression: a failed rebuild leaves the bus exactly as
/// it was, so a subscriber that was caught up (waiting) still polls
/// `Pending` — it stays blocked; only a later successful rebuild, which
/// publishes, lets its next poll deliver a message.
pub proof fn lemma_rebuild_failure_suppression(bus: ReloadBus, sub: Subscriber)
    requires
        bus.wf(),
        sub.next == bus.published,
        bus.published < u64::MAX,
    ensures
        sub.spec_poll(bus).1 is Pending,
        ({
            let after_success = bus.spec_publish();
            sub.spec_poll(after_success).1 == (Reception::Message { seq: bus.published })
        }),
{
}

} // verus!
