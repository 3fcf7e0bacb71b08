//! The event bus: a broadcast channel model with one send side, bounded
//! retained history, and arbitrarily many receivers, each with its own read
//! cursor. The sender never blocks; a receiver that falls behind the
//! retained window loses the overwritten messages and is told so.

use vstd::prelude::*;

use crate::events::{event_block_number, is_block_event, Event};

verus! {

/// How many messages the bus retains for receivers that lag behind.
pub const BUS_CAPACITY: usize = 512;

/// The broadcast bus. The whole sequence of messages ever sent is kept as
/// ghost history; the executable state retains only the last
/// `BUS_CAPACITY` of them.
pub struct EventBus {
    buffer: Vec<Event>,
    next_seq: u64,
    history: Ghost<Seq<Event>>,
}

/// One consumer's handle: the position in the bus history it will read next.
pub struct BusReceiver {
    cursor: u64,
}

/// What one receive call yields: the next message, a notice that `skipped`
/// messages were lost to lag, or nothing when the receiver is caught up.
#[derive(Debug)]
pub enum RecvOutcome {
    Received(Event),
    Lagged(u64),
    Empty,
}

impl EventBus {
    /// Every message ever sent, in send order.
    pub closed spec fn sent(self) -> Seq<Event> {
        self.history@
    }

    /// How many messages were ever sent.
    pub open spec fn total_sent(self) -> nat {
        self.sent().len()
    }

    /// The position of the oldest message still retained.
    pub open spec fn oldest_retained(self) -> nat {
        if self.total_sent() <= BUS_CAPACITY {
            0
        } else {
            (self.total_sent() - BUS_CAPACITY) as nat
        }
    }

    pub closed spec fn wf(self) -> bool {
        &&& self.next_seq as nat == self.history@.len()
        &&& self.buffer@.len() == self.history@.len() - self.oldest_retained()
        &&& forall|i: int|
            0 <= i < self.buffer@.len() ==> self.buffer@[i] == self.history@[self.oldest_retained()
                + i]
    }

    pub fn new() -> (r: EventBus)
        ensures
            r.wf(),
            r.total_sent() == 0,
    {
        EventBus { buffer: Vec::new(), next_seq: 0, history: Ghost(Seq::empty()) }
    }

    /// Publish one message. The sender never blocks and never fails: when
    /// the retained window is full, the oldest retained message is dropped.
    pub fn send(&mut self, e: Event)
        requires
            old(self).wf(),
            old(self).total_sent() < u64::MAX,
        ensures
            final(self).wf(),
            final(self).sent() == old(self).sent().push(e),
    {
        if self.buffer.len() == BUS_CAPACITY {
            self.buffer.remove(0);
        }
        self.buffer.push(e);
        self.next_seq = self.next_seq + 1;
        self.history = Ghost(self.history@.push(e));
    }

    /// A new receiver starts at the current end of history: it will see
    /// only messages sent after it subscribed, never a replay.
    pub fn subscribe(&self) -> (r: BusReceiver)
        requires
            self.wf(),
        ensures
            r.cursor() == self.total_sent(),
    {
        BusReceiver { cursor: self.next_seq }
    }
}

/// Where a receiver's cursor stands after one receive against a bus state.
pub open spec fn cursor_after_recv(bus: EventBus, cursor: nat) -> nat {
    if cursor == bus.total_sent() {
        cursor
    } else if cursor < bus.oldest_retained() {
        bus.oldest_retained()
    } else {
        cursor + 1
    }
}

/// What one receive yields for a receiver at `cursor` against a bus state.
pub open spec fn recv_outcome(bus: EventBus, cursor: nat) -> RecvOutcome {
    if cursor == bus.total_sent() {
        RecvOutcome::Empty
    } else if cursor < bus.oldest_retained() {
        RecvOutcome::Lagged((bus.oldest_retained() - cursor) as u64)
    } else {
        RecvOutcome::Received(bus.sent()[cursor as int])
    }
}

impl BusReceiver {
    /// The position in the bus history this receiver will read next.
    pub closed spec fn cursor(self) -> nat {
        self.cursor as nat
    }

    /// Take the next message, if any. A receiver more than `BUS_CAPACITY`
    /// behind is told how much it lost and is moved up to the oldest
    /// retained message; otherwise the message at the cursor is yielded
    /// and the cursor advances by one.
    pub fn recv(&mut self, bus: &EventBus) -> (r: RecvOutcome)
        requires
            bus.wf(),
            old(self).cursor() <= bus.total_sent(),
        ensures
            final(self).cursor() == cursor_after_recv(*bus, old(self).cursor()),
            r == recv_outcome(*bus, old(self).cursor()),
    {
        if self.cursor == bus.next_seq {
            RecvOutcome::Empty
        } else {
            let oldest: u64 = bus.next_seq - bus.buffer.len() as u64;
            if self.cursor < oldest {
                let skipped = oldest - self.cursor;
                self.cursor = oldest;
                RecvOutcome::Lagged(skipped)
            } else {
                let idx = (self.cursor - oldest) as usize;
                let e = bus.buffer[idx].clone();
                self.cursor = self.cursor + 1;
                RecvOutcome::Received(e)
            }
        }
    }
}

/// No replay: every message a receiver yields sits exactly at its cursor,
/// and the cursor never moves backward. So a receiver that subscribed when
/// `cursor` messages had been sent never yields a message sent earlier
/// than that; in particular, a message sent with no receiver subscribed is
/// received by nobody.
pub proof fn lemma_no_replay(bus: EventBus, cursor: nat, earlier: nat)
    requires
        bus.wf(),
        earlier < cursor <= bus.total_sent(),
    ensures
        cursor_after_recv(bus, cursor) >= cursor,
        recv_outcome(bus, cursor) matches RecvOutcome::Received(e) ==> e == bus.sent()[cursor as int]
            && cursor != earlier,
{
}

/// Lag: a receiver more than `BUS_CAPACITY` sends behind observes a lag
/// notice on its next receive, and the first message it then successfully
/// yields is the oldest retained one, which is no longer the oldest ever
/// sent.
pub proof fn lemma_lagged_receiver(bus: EventBus, cursor: nat)
    requires
        bus.wf(),
        cursor + BUS_CAPACITY < bus.total_sent(),
    ensures
        recv_outcome(bus, cursor) == RecvOutcome::Lagged(
            (bus.oldest_retained() - cursor) as u64,
        ),
        cursor_after_recv(bus, cursor) == bus.oldest_retained(),
        bus.oldest_retained() >= 1,
        recv_outcome(bus, bus.oldest_retained()) == RecvOutcome::Received(
            bus.sent()[bus.oldest_retained() as int],
        ),
{
}

/// Whether the block events inside a message history carry non-decreasing
/// block numbers.
pub open spec fn block_events_monotone(h: Seq<Event>) -> bool {
    forall|i: int, j: int|
        #![trigger event_block_number(h[i]), event_block_number(h[j])]
        0 <= i <= j < h.len() && is_block_event(h[i]) && is_block_event(h[j])
            ==> event_block_number(h[i]) <= event_block_number(h[j])
}

/// Per-producer ordering: when the block events in the bus history carry
/// non-decreasing block numbers, any receiver sees them so, since each
/// yielded message sits at the receiver's cursor and the cursor only grows.
pub proof fn lemma_blocks_received_in_order(bus: EventBus, cursor1: nat, cursor2: nat)
    requires
        bus.wf(),
        block_events_monotone(bus.sent()),
        bus.oldest_retained() <= cursor1 <= cursor2 < bus.total_sent(),
        is_block_event(bus.sent()[cursor1 as int]),
        is_block_event(bus.sent()[cursor2 as int]),
    ensures
        recv_outcome(bus, cursor1) == RecvOutcome::Received(bus.sent()[cursor1 as int]),
        recv_outcome(bus, cursor2) == RecvOutcome::Received(bus.sent()[cursor2 as int]),
        event_block_number(bus.sent()[cursor1 as int]) <= event_block_number(
            bus.sent()[cursor2 as int],
        ),
{
}

} // verus!
