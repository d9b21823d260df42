use livepreview::bus::{Reception, ReloadBus};

#[test]
fn subscriber_created_after_publish_never_sees_it() {
    let mut bus = ReloadBus::new(100);
    bus.publish();
    // The subscriber is created after message 0 was published: it starts
    // caught up and must not receive that message.
    let mut sub = bus.subscribe();
    assert_eq!(sub.poll(&bus), Reception::Pending);
    // It does receive a message published after its creation.
    bus.publish();
    assert_eq!(sub.poll(&bus), Reception::Message { seq: 1 });
    assert_eq!(sub.poll(&bus), Reception::Pending);
}

#[test]
fn publish_with_zero_subscribers_is_harmless() {
    let mut bus = ReloadBus::new(5);
    assert_eq!(bus.subscribers, 0);
    bus.publish();
    bus.publish();
    assert_eq!(bus.published, 2);
    assert_eq!(bus.subscribers, 0);
}

#[test]
fn slow_subscriber_gets_overrun_signal_not_silent_loss() {
    let mut bus = ReloadBus::new(2);
    let mut sub = bus.subscribe();
    for _ in 0..5 {
        bus.publish();
    }
    // Five messages behind with capacity two: three are dropped, and the
    // subscriber is told so rather than crashing or skipping silently.
    assert_eq!(sub.poll(&bus), Reception::Lagged { missed: 3 });
    // The retained messages still arrive, in order.
    assert_eq!(sub.poll(&bus), Reception::Message { seq: 3 });
    assert_eq!(sub.poll(&bus), Reception::Message { seq: 4 });
    assert_eq!(sub.poll(&bus), Reception::Pending);
}

#[test]
fn subscriber_exactly_at_capacity_is_not_overrun() {
    let mut bus = ReloadBus::new(2);
    let mut sub = bus.subscribe();
    bus.publish();
    bus.publish();
    assert_eq!(sub.poll(&bus), Reception::Message { seq: 0 });
    assert_eq!(sub.poll(&bus), Reception::Message { seq: 1 });
}

#[test]
fn subscribe_and_unsubscribe_track_live_handles() {
    let mut bus = ReloadBus::new(100);
    let _a = bus.subscribe();
    let _b = bus.subscribe();
    assert_eq!(bus.subscribers, 2);
    bus.unsubscribe();
    assert_eq!(bus.subscribers, 1);
    bus.unsubscribe();
    assert_eq!(bus.subscribers, 0);
}
