//! The reload bus: a bounded, multi-subscriber broadcast channel carrying
//! reload notifications.
//!
//! A message has no payload; it is identified here by its sequence number
//! (the number of messages published before it). The bus keeps the total
//! count of messages ever published and each subscriber keeps a cursor into
//! that history. A subscriber starts at the current count, so it can only
//! ever observe messages published after its creation. A subscriber that
//! falls more than `capacity` messages behind is overrun: it is handed a
//! "lagged" signal and its cursor jumps to the oldest retained message,
//! rather than failing or losing messages silently.

use vstd::prelude::*;

verus! {

/// Producer side of the broadcast: the total message count, the buffer
/// bound, and the number of live subscriber handles.
pub struct ReloadBus {
    /// Messages ever published on this bus.
    pub published: u64,
    /// How many messages a slow subscriber may fall behind before it is
    /// overrun.
    pub capacity: u64,
    /// Live subscriber handles. Publishing is indifferent to this count.
    pub subscribers: u64,
}

/// Consumer side of the broadcast: a cursor into the message history.
/// The next message this subscriber would receive is message `next`.
#[derive(Clone, Copy, PartialEq, Eq, Structural, Debug)]
pub struct Subscriber {
    pub next: u64,
}

/// What one poll of a subscriber yields.
#[derive(Clone, Copy, PartialEq, Eq, Structural, Debug)]
pub enum Reception {
    /// No message published since the cursor; the caller keeps waiting.
    Pending,
    /// Message `seq` is delivered and the cursor moves past it.
    Message { seq: u64 },
    /// The subscriber was overrun: `missed` messages were dropped and the
    /// cursor jumps to the oldest retained message. Callers treat this
    /// signal exactly like a delivered message ("reload now").
    Lagged { missed: u64 },
}

impl ReloadBus {
    /// A bus buffers at least one message.
    pub open spec fn wf(self) -> bool {
        1 <= self.capacity
    }

    pub open spec fn spec_new(capacity: u64) -> ReloadBus {
        ReloadBus { published: 0, capacity, subscribers: 0 }
    }

    /// The bus after one publish: only the message count grows.
    pub open spec fn spec_publish(self) -> ReloadBus {
        ReloadBus { published: (self.published + 1) as u64, ..self }
    }

    /// The subscriber handed out by `subscribe`: its cursor starts at the
    /// current message count, past every message already published.
    pub open spec fn spec_subscriber(self) -> Subscriber {
        Subscriber { next: self.published }
    }

    pub fn new(capacity: u64) -> (bus: ReloadBus)
        requires
            1 <= capacity,
        ensures
            bus == ReloadBus::spec_new(capacity),
            bus.wf(),
    {
        ReloadBus { published: 0, capacity, subscribers: 0 }
    }

    /// Publish a reload notification. This never fails and never blocks,
    /// whatever the number of live subscribers — including zero, in which
    /// case the message is simply never delivered to anyone.
    pub fn publish(&mut self)
        requires
            old(self).published < u64::MAX,
        ensures
            *final(self) == old(self).spec_publish(),
            final(self).published == old(self).published + 1,
            final(self).capacity == old(self).capacity,
            final(self).subscribers == old(self).subscribers,
    {
        self.published = self.published + 1;
    }

    /// Hand out a fresh subscriber. It will observe only messages published
    /// after this call.
    pub fn subscribe(&mut self) -> (s: Subscriber)
        requires
            old(self).subscribers < u64::MAX,
        ensures
            s == old(self).spec_subscriber(),
            s.next == old(self).published,
            final(self).subscribers == old(self).subscribers + 1,
            final(self).published == old(self).published,
            final(self).capacity == old(self).capacity,
            s.attached(*final(self)),
    {
        self.subscribers = self.subscribers + 1;
        Subscriber { next: self.published }
    }

    /// Drop one subscriber handle (a connection closed).
    pub fn unsubscribe(&mut self)
        requires
            1 <= old(self).subscribers,
        ensures
            final(self).subscribers == old(self).subscribers - 1,
            final(self).published == old(self).published,
            final(self).capacity == old(self).capacity,
    {
        self.subscribers = self.subscribers - 1;
    }
}

impl Subscriber {
    /// A subscriber's cursor never points past the history of the bus it
    /// was created on.
    pub open spec fn attached(self, bus: ReloadBus) -> bool {
        self.next <= bus.published
    }

    /// One poll of this subscriber against the bus: the new cursor and what
    /// the poll yields.
    pub open spec fn spec_poll(self, bus: ReloadBus) -> (Subscriber, Reception) {
        if self.next == bus.published {
            (self, Reception::Pending)
        } else if bus.published - self.next > bus.capacity {
            let oldest = (bus.published - bus.capacity) as u64;
            (
                Subscriber { next: oldest },
                Reception::Lagged { missed: (oldest - self.next) as u64 },
            )
        } else {
            (
                Subscriber { next: (self.next + 1) as u64 },
                Reception::Message { seq: self.next },
            )
        }
    }

    /// Poll once: deliver the next message if one is pending, report an
    /// overrun if this subscriber fell behind the buffer bound, and
    /// otherwise report that nothing has arrived yet. The cursor never
    /// moves backwards.
    pub fn poll(&mut self, bus: &ReloadBus) -> (r: Reception)
        requires
            old(self).attached(*bus),
            bus.wf(),
        ensures
            ({
                let (s2, r2) = old(self).spec_poll(*bus);
                &&& *final(self) == s2
                &&& r == r2
            }),
            final(self).attached(*bus),
            old(self).next <= final(self).next,
            (r is Pending) <==> old(self).next == bus.published,
    {
        if self.next == bus.published {
            Reception::Pending
        } else if bus.published - self.next > bus.capacity {
            let oldest: u64 = bus.published - bus.capacity;
            let missed: u64 = oldest - self.next;
            self.next = oldest;
            Reception::Lagged { missed }
        } else {
            let seq: u64 = self.next;
            self.next = self.next + 1;
            Reception::Message { seq }
        }
    }
}

/// Broadcast isolation, one step: a subscriber whose cursor already lies
/// beyond message `m` is never handed `m` by a poll, and its cursor stays
/// beyond `m`. Since `subscribe` starts the cursor at the number of messages
/// already published, a subscriber created after `m` was published satisfies
/// `m < next` from birth, and this lemma carries that fact through every
/// later poll: such a subscriber never receives `m`.
pub proof fn lemma_broadcast_isolation(bus: ReloadBus, sub: Subscriber, m: u64)
    requires
        bus.wf(),
        sub.attached(bus),
        m < sub.next,
    ensures
        ({
            let (s2, r) = sub.spec_poll(bus);
            &&& m < s2.next
            &&& r != (Reception::Message { seq: m })
        }),
{
}

/// Broadcast isolation, the other half: every message published after the
/// subscriber's creation is delivered, in publication order, as long as the
/// subscriber has not been overrun.
pub proof fn lemma_fresh_message_delivered(bus: ReloadBus, sub: Subscriber)
    requires
        bus.wf(),
        sub.attached(bus),
        sub.next < bus.published,
        bus.published - sub.next <= bus.capacity,
    ensures
        ({
            let (s2, r) = sub.spec_poll(bus);
            &&& r == (Reception::Message { seq: sub.next })
            &&& s2.next == sub.next + 1
        }),
{
}

/// One operation of a run of the bus, as one subscriber observes it:
/// either somebody publishes, or this subscriber polls.
#[derive(Clone, Copy, PartialEq, Eq, Structural, Debug)]
pub enum BusOp {
    Publish,
    Poll,
}

/// Interpret a sequence of operations against the bus and one subscriber:
/// the final bus, the final subscriber, and everything the subscriber's
/// polls yielded along the way.
pub open spec fn spec_run(bus: ReloadBus, sub: Subscriber, ops: Seq<BusOp>) -> (
    ReloadBus,
    Subscriber,
    Seq<Reception>,
)
    decreases ops.len(),
{
    if ops.len() == 0 {
        (bus, sub, Seq::empty())
    } else {
        match ops[0] {
            BusOp::Publish => spec_run(bus.spec_publish(), sub, ops.drop_first()),
            BusOp::Poll => {
                let (sp, r) = sub.spec_poll(bus);
                let (b2, s2, rs) = spec_run(bus, sp, ops.drop_first());
                (b2, s2, seq![r] + rs)
            },
        }
    }
}

/// Broadcast isolation over a whole run: a subscriber whose cursor lies
/// beyond message `m` — as any subscriber created after `m` was published
/// does from birth — is never handed `m` by any of its polls, however many
/// publishes and polls follow, and its cursor stays beyond `m` throughout.
pub proof fn lemma_broadcast_isolation_run(
    bus: ReloadBus,
    sub: Subscriber,
    m: u64,
    ops: Seq<BusOp>,
)
    requires
        bus.wf(),
        sub.attached(bus),
        m < sub.next,
        bus.published + ops.len() <= u64::MAX,
    ensures
        ({
            let (b2, s2, rs) = spec_run(bus, sub, ops);
            &&& m < s2.next
            &&& forall|i: int| 0 <= i < rs.len() ==> rs[i] != (Reception::Message { seq: m })
        }),
    decreases ops.len(),
{
    if ops.len() > 0 {
        match ops[0] {
            BusOp::Publish => {
                lemma_broadcast_isolation_run(bus.spec_publish(), sub, m, ops.drop_first());
            },
            BusOp::Poll => {
                let (sp, r) = sub.spec_poll(bus);
                lemma_broadcast_isolation(bus, sub, m);
                lemma_broadcast_isolation_run(bus, sp, m, ops.drop_first());
            },
        }
    }
}

/// Zero-subscriber safety: publishing is defined for every well-formed bus,
/// with no demand on the subscriber count — in particular on a bus with no
/// subscribers at all — and it always succeeds, growing the message count
/// by one and touching nothing else.
pub proof fn lemma_zero_subscriber_publish(bus: ReloadBus)
    requires
        bus.published < u64::MAX,
    ensures
        bus.spec_publish().published == bus.published + 1,
        bus.spec_publish().subscribers == bus.subscribers,
        bus.spec_publish().capacity == bus.capacity,
{
}

} // verus!
