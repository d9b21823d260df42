//! The live-reload connection state machine. Each accepted connection on
//! the reserved path is upgraded, subscribes once to the reload bus, waits
//! for exactly one notification (or an overrun, treated the same), sends a
//! single reload message, and closes. A fresh page load opens a fresh
//! connection with a fresh subscriber.

use crate::bus::ReloadBus;
use crate::bus::Reception;
use crate::bus::Subscriber;
use vstd::prelude::*;

verus! {

/// The phases of one live-reload connection, in the order they are passed
/// through. `Closed` is terminal: no transition accepts a closed
/// connection.
#[derive(Clone, Copy, PartialEq, Eq, Structural, Debug)]
pub enum ConnState {
    /// Accepted; the protocol upgrade has not completed yet.
    Start,
    /// Upgraded, with this connection's bus subscriber created.
    Subscribed,
    /// Suspended until the subscriber yields a message or an overrun.
    Waiting,
    /// A notification is due: send one reload message.
    Notify,
    /// Torn down after the one notification; nothing further is awaited.
    Closed,
}

/// What the scheduler should do with this connection after one step.
#[derive(Clone, Copy, PartialEq, Eq, Structural, Debug)]
pub enum ConnAction {
    /// Nothing arrived; keep the connection suspended.
    KeepWaiting,
    /// Send the single reload notification to the client.
    SendReload,
}

/// One live-reload connection: its phase, its bus subscriber, and how many
/// reload notifications it has sent (never more than one).
pub struct Connection {
    pub state: ConnState,
    /// This connection's subscriber. Meaningful from `Subscribed` on; until
    /// the upgrade it holds a placeholder cursor.
    pub sub: Subscriber,
    /// Reload notifications sent on this connection.
    pub notices: u64,
}

impl Connection {
    /// A connection was accepted on the reserved path.
    pub fn accept() -> (c: Connection)
        ensures
            c.state is Start,
            c.notices == 0,
    {
        Connection { state: ConnState::Start, sub: Subscriber { next: 0 }, notices: 0 }
    }

    /// The protocol upgrade completed: create this connection's subscriber.
    /// The subscriber starts at the bus's current message count, so the
    /// connection can only be woken by messages published from now on.
    pub fn upgrade(&mut self, bus: &mut ReloadBus)
        requires
            old(self).state is Start,
            old(bus).subscribers < u64::MAX,
        ensures
            final(self).state is Subscribed,
            final(self).sub == old(bus).spec_subscriber(),
            final(self).sub.next == old(bus).published,
            final(self).notices == old(self).notices,
            final(bus).subscribers == old(bus).subscribers + 1,
            final(bus).published == old(bus).published,
            final(bus).capacity == old(bus).capacity,
            final(self).sub.attached(*final(bus)),
    {
        self.sub = bus.subscribe();
        self.state = ConnState::Subscribed;
    }

    /// Begin awaiting a notification.
    pub fn begin_waiting(&mut self)
        requires
            old(self).state is Subscribed,
        ensures
            final(self).state is Waiting,
            final(self).sub == old(self).sub,
            final(self).notices == old(self).notices,
    {
        self.state = ConnState::Waiting;
    }

    /// One scheduling step while waiting: poll the subscriber once. If
    /// nothing has arrived the connection stays waiting; a delivered
    /// message or an overrun both mean "reload now" and move the
    /// connection to `Notify` with a single `SendReload` action.
    pub fn step(&mut self, bus: &ReloadBus) -> (a: ConnAction)
        requires
            old(self).state is Waiting,
            old(self).sub.attached(*bus),
            bus.wf(),
        ensures
            ({
                let (s2, r) = old(self).sub.spec_poll(*bus);
                &&& final(self).sub == s2
                &&& final(self).notices == old(self).notices
                &&& (r is Pending ==> final(self).state is Waiting && a is KeepWaiting)
                &&& (!(r is Pending) ==> final(self).state is Notify && a is SendReload)
            }),
    {
        let r = self.sub.poll(bus);
        match r {
            Reception::Pending => ConnAction::KeepWaiting,
            _ => {
                self.state = ConnState::Notify;
                ConnAction::SendReload
            },
        }
    }

    /// The single reload notification was sent: close the connection and
    /// drop its subscriber. `Closed` is terminal — no transition of this
    /// machine accepts a closed connection, so no further notification can
    /// ever be sent on it.
    pub fn complete(&mut self, bus: &mut ReloadBus)
        requires
            old(self).state is Notify,
            old(self).notices < u64::MAX,
            1 <= old(bus).subscribers,
        ensures
            final(self).state is Closed,
            final(self).notices == old(self).notices + 1,
            final(self).sub == old(self).sub,
            final(bus).subscribers == old(bus).subscribers - 1,
            final(bus).published == old(bus).published,
            final(bus).capacity == old(bus).capacity,
    {
        bus.unsubscribe();
        self.notices = self.notices + 1;
        self.state = ConnState::Closed;
    }
}

/// One-shot notify: a connection that is waiting and caught up with the
/// bus is woken by a single publish with exactly the new message; once it
/// has consumed it, a further poll yields nothing until another publish.
/// With the transition contracts — `step` turns the delivery into one
/// `SendReload` and the `Notify` phase, `complete` closes the connection,
/// and no transition accepts a `Closed` connection — each such connection
/// sends exactly one notification per successful rebuild and then closes.
/// The lemma speaks of one connection, and applies to each of any number of
/// simultaneous ones in turn, since every connection owns its subscriber.
pub proof fn lemma_one_shot_notify(bus: ReloadBus, conn: Connection)
    requires
        bus.wf(),
        conn.state is Waiting,
        conn.sub.next == bus.published,
        bus.published < u64::MAX,
    ensures
        ({
            let bus2 = bus.spec_publish();
            let (s2, r) = conn.sub.spec_poll(bus2);
            &&& r == (Reception::Message { seq: bus.published })
            &&& s2.next == bus2.published
            &&& s2.spec_poll(bus2).1 is Pending
        }),
{
}

} // verus!
