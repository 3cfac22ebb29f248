//! Log records, the bus that hands them to the subscribers that store them,
//! and the queue of records that could not be stored yet.

use vstd::prelude::*;

verus! {

/// A log record as a client posted it.
#[derive(Debug)]
pub struct LogEvent {
    /// When the service received it, as `YYYY-MM-DD HH:MM:SS` in UTC.
    pub timestamp: String,
    /// The service that sent it.
    pub entity: String,
    /// The record's text.
    pub data: String,
}

impl Clone for LogEvent {
    fn clone(&self) -> (res: Self)
        ensures
            res == *self,
    {
        LogEvent { timestamp: self.timestamp.clone(), entity: self.entity.clone(), data: self.data.clone() }
    }
}

/// One hand-over of a record to a subscriber: the subscriber's position on
/// the bus and the record.
pub struct Delivery {
    pub listener: usize,
    pub event: LogEvent,
}

/// The hand-overs of `event` to `n` subscribers, in the order they subscribed.
pub open spec fn deliveries_to_all(d: Seq<Delivery>, n: nat, event: LogEvent) -> bool {
    &&& d.len() == n
    &&& forall|i: int| 0 <= i < n ==> (#[trigger] d[i]).listener == i && d[i].event == event
}

/// A publish-subscribe bus: every record pushed on it goes to every
/// subscriber, in the order in which they subscribed.
pub struct EventBus<L> {
    listeners: Vec<L>,
}

impl<L> EventBus<L> {
    /// The subscribers, in the order in which they subscribed.
    pub closed spec fn subscribers(&self) -> Seq<L> {
        self.listeners@
    }

    /// A bus without subscribers.
    pub fn new() -> (bus: Self)
        ensures
            bus.subscribers() == Seq::<L>::empty(),
    {
        EventBus { listeners: Vec::new() }
    }

    /// Adds a subscriber after those already there.
    pub fn subscribe(&mut self, listener: L)
        ensures
            final(self).subscribers() == old(self).subscribers().push(listener),
    {
        self.listeners.push(listener);
    }

    /// The number of subscribers.
    pub fn len(&self) -> (n: usize)
        ensures
            n == self.subscribers().len(),
    {
        self.listeners.len()
    }

    /// The subscriber at position `i`.
    pub fn listener(&self, i: usize) -> (l: &L)
        requires
            i < self.subscribers().len(),
        ensures
            *l == self.subscribers()[i as int],
    {
        &self.listeners[i]
    }

    /// Publishes `value`: the hand-overs to make, one to each subscriber, in
    /// the order in which they subscribed.
    pub fn push(&self, value: &LogEvent) -> (deliveries: Vec<Delivery>)
        ensures
            deliveries_to_all(deliveries@, self.subscribers().len(), *value),
    {
        let n = self.listeners.len();
        let mut deliveries: Vec<Delivery> = Vec::new();
        for i in 0..n
            invariant
                n == self.subscribers().len(),
                deliveries_to_all(deliveries@, i as nat, *value),
        {
            deliveries.push(Delivery { listener: i, event: value.clone() });
        }
        deliveries
    }
}

/// Records that are not stored yet: those posted during a rotation, and those
/// whose storing failed.
pub struct UncommittedLog {
    events: Vec<LogEvent>,
}

impl UncommittedLog {
    /// The records, oldest first.
    pub closed spec fn pending(&self) -> Seq<LogEvent> {
        self.events@
    }

    /// An empty queue.
    pub fn new() -> (q: Self)
        ensures
            q.pending() == Seq::<LogEvent>::empty(),
    {
        UncommittedLog { events: Vec::new() }
    }

    /// The number of records held.
    pub fn len(&self) -> (n: usize)
        ensures
            n == self.pending().len(),
    {
        self.events.len()
    }

    /// Holds a record back.
    pub fn hold(&mut self, event: LogEvent)
        ensures
            final(self).pending() == old(self).pending().push(event),
    {
        self.events.push(event);
    }

    /// What storing a record leaves behind: a record that could not be
    /// stored is held back; one that was stored leaves the queue as it was.
    pub fn record_insert_outcome(&mut self, event: &LogEvent, stored: bool)
        ensures
            final(self).pending() == (if stored { old(self).pending() } else { old(self).pending().push(*event) }),
    {
        if !stored {
            self.events.push(event.clone());
        }
    }
}

/// The records to publish again from the queue: all of them, oldest first.
/// The queue itself is left as it is.
pub fn process_log_queue(queue: &UncommittedLog) -> (events: Vec<LogEvent>)
    ensures
        events@ == queue.pending(),
{
    let n = queue.events.len();
    let mut events: Vec<LogEvent> = Vec::new();
    for i in 0..n
        invariant
            n == queue.pending().len(),
            events@ == queue.pending().take(i as int),
    {
        events.push(queue.events[i].clone());
        assert(events@ =~= queue.pending().take(i + 1));
    }
    assert(queue.pending().take(n as int) =~= queue.pending());
    events
}

/// A subscriber added to the bus receives every record pushed afterwards,
/// after all those that subscribed before it; those keep their positions.
pub proof fn lemma_subscriber_receives_pushes<L>(
    before: EventBus<L>,
    after: EventBus<L>,
    listener: L,
    event: LogEvent,
    deliveries: Seq<Delivery>,
)
    requires
        after.subscribers() == before.subscribers().push(listener),
        deliveries_to_all(deliveries, after.subscribers().len(), event),
    ensures
        deliveries.len() == before.subscribers().len() + 1,
        after.subscribers()[deliveries.last().listener as int] == listener,
        deliveries.last().event == event,
        forall|i: int| 0 <= i < before.subscribers().len() ==>
            after.subscribers()[(#[trigger] deliveries[i]).listener as int] == before.subscribers()[i],
{
    assert(deliveries.last() == deliveries[deliveries.len() - 1]);
}

} // verus!
