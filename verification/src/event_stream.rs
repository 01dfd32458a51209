//! The event stream of one computation: an append-only log that any number
//! of subscribers read, each at its own pace. A subscriber sees what is
//! published after it subscribed, once and in order. The log keeps a bounded
//! number of events; a subscriber that falls further behind is told how many
//! events it lost and goes on with the oldest one kept. The bound is chosen
//! when the stream is made; with a bound of zero nothing is kept and every
//! event is lost to every subscriber.

use vstd::prelude::*;
use crate::event::{AgentEvent, AgentEventView};
use crate::streaming::{Delivery, DeliveryView};

verus! {

/// What an event stream is: everything published so far, how many of the
/// latest events are kept for readers, where each subscriber stands, and
/// whether the producer has finished.
pub struct EventStreamView {
    pub history: Seq<AgentEventView>,
    pub capacity: nat,
    /// For each subscriber, the number of events published before the one it
    /// reads next.
    pub cursors: Seq<nat>,
    pub closed: bool,
}

impl EventStreamView {
    /// The position of the oldest event still kept.
    pub open spec fn retained_from(self) -> nat {
        if self.history.len() > self.capacity {
            (self.history.len() - self.capacity) as nat
        } else {
            0
        }
    }

    pub open spec fn well_formed(self) -> bool {
        forall|i: int| 0 <= i < self.cursors.len() ==> self.cursors[i] <= self.history.len()
    }

    /// Whether the stream takes another event: it is open, and its count of
    /// events is not exhausted.
    pub open spec fn accepts(self) -> bool {
        !self.closed && self.history.len() < u64::MAX
    }

    /// The stream after `event` is published. A stream that does not accept
    /// the event stays as it is.
    pub open spec fn after_publish(self, event: AgentEventView) -> EventStreamView {
        if self.accepts() {
            EventStreamView { history: self.history.push(event), ..self }
        } else {
            self
        }
    }

    /// The stream after each of `events` is published, in order.
    pub open spec fn after_publish_all(self, events: Seq<AgentEventView>) -> EventStreamView
        decreases events.len(),
    {
        if events.len() == 0 {
            self
        } else {
            self.after_publish(events[0]).after_publish_all(events.drop_first())
        }
    }

    /// The stream after one more subscriber joined. It starts from now: its
    /// cursor stands behind everything published so far.
    pub open spec fn after_subscribe(self) -> EventStreamView {
        EventStreamView { cursors: self.cursors.push(self.history.len()), ..self }
    }

    /// What subscriber `sub` gets when it reads: the loss it suffered, if the
    /// event it waits for is no longer kept; else that event; else the end,
    /// once the producer has finished; else nothing yet. An unknown
    /// subscriber gets the end.
    pub open spec fn next_delivery(self, sub: int) -> Option<DeliveryView> {
        if !(0 <= sub < self.cursors.len()) {
            Some(DeliveryView::Closed)
        } else if self.cursors[sub] < self.retained_from() {
            Some(DeliveryView::Lagged((self.retained_from() - self.cursors[sub]) as nat))
        } else if self.cursors[sub] < self.history.len() {
            Some(DeliveryView::Event(self.history[self.cursors[sub] as int]))
        } else if self.closed {
            Some(DeliveryView::Closed)
        } else {
            None
        }
    }

    /// The stream after subscriber `sub` has read once: its cursor jumps to
    /// the oldest event kept after a loss, and moves on by one after an
    /// event. No other subscriber's cursor moves.
    pub open spec fn after_next(self, sub: int) -> EventStreamView {
        if !(0 <= sub < self.cursors.len()) {
            self
        } else if self.cursors[sub] < self.retained_from() {
            EventStreamView { cursors: self.cursors.update(sub, self.retained_from()), ..self }
        } else if self.cursors[sub] < self.history.len() {
            EventStreamView {
                cursors: self.cursors.update(sub, (self.cursors[sub] + 1) as nat),
                ..self
            }
        } else {
            self
        }
    }

    /// What subscriber `sub` gets from `reads` reads, one after another.
    pub open spec fn observed(self, sub: int, reads: nat) -> Seq<Option<DeliveryView>>
        decreases reads,
    {
        if reads == 0 {
            Seq::empty()
        } else {
            seq![self.next_delivery(sub)] + self.after_next(sub).observed(sub, (reads - 1) as nat)
        }
    }

    /// The stream after subscriber `sub` has read `reads` times.
    pub open spec fn after_reads(self, sub: int, reads: nat) -> EventStreamView
        decreases reads,
    {
        if reads == 0 {
            self
        } else {
            self.after_next(sub).after_reads(sub, (reads - 1) as nat)
        }
    }
}

/// One step of the life of a stream as one subscriber sees it: the producer
/// publishes an event, or the subscriber reads.
pub enum StreamOp {
    Publish(AgentEventView),
    Read,
}

impl EventStreamView {
    /// The stream after `ops`, the reads being those of subscriber `sub`.
    pub open spec fn after_ops(self, sub: int, ops: Seq<StreamOp>) -> EventStreamView
        decreases ops.len(),
    {
        if ops.len() == 0 {
            self
        } else {
            match ops[0] {
                StreamOp::Publish(event) => self.after_publish(event).after_ops(
                    sub,
                    ops.drop_first(),
                ),
                StreamOp::Read => self.after_next(sub).after_ops(sub, ops.drop_first()),
            }
        }
    }

    /// The events that subscriber `sub` is handed by its reads among `ops`,
    /// in the order of the reads.
    pub open spec fn received(self, sub: int, ops: Seq<StreamOp>) -> Seq<AgentEventView>
        decreases ops.len(),
    {
        if ops.len() == 0 {
            Seq::empty()
        } else {
            match ops[0] {
                StreamOp::Publish(event) => self.after_publish(event).received(
                    sub,
                    ops.drop_first(),
                ),
                StreamOp::Read => {
                    let first = match self.next_delivery(sub) {
                        Some(DeliveryView::Event(event)) => seq![event],
                        _ => Seq::empty(),
                    };
                    first + self.after_next(sub).received(sub, ops.drop_first())
                },
            }
        }
    }

    /// Whether one of the reads among `ops` tells subscriber `sub` of a loss.
    pub open spec fn loses(self, sub: int, ops: Seq<StreamOp>) -> bool
        decreases ops.len(),
    {
        if ops.len() == 0 {
            false
        } else {
            match ops[0] {
                StreamOp::Publish(event) => self.after_publish(event).loses(sub, ops.drop_first()),
                StreamOp::Read => self.next_delivery(sub) is Some && self.next_delivery(sub)->0
                    is Lagged || self.after_next(sub).loses(sub, ops.drop_first()),
            }
        }
    }
}

/// Delivery in order, at most once: however publishing and reading are
/// interleaved, the history only grows, a subscriber's cursor only moves
/// forward, and unless it is told of a loss what the subscriber has been
/// handed is exactly the stretch of the history between where it stood and
/// where it stands, nothing twice, nothing out of order, nothing left out.
pub proof fn lemma_delivery_in_order(stream: EventStreamView, sub: int, ops: Seq<StreamOp>)
    requires
        stream.well_formed(),
        0 <= sub < stream.cursors.len(),
    ensures
        ({
            let end = stream.after_ops(sub, ops);
            &&& end.well_formed()
            &&& end.capacity == stream.capacity
            &&& end.cursors.len() == stream.cursors.len()
            &&& stream.history.len() <= end.history.len()
            &&& end.history.take(stream.history.len() as int) == stream.history
            &&& stream.cursors[sub] <= end.cursors[sub] <= end.history.len()
            &&& !stream.loses(sub, ops) ==> stream.received(sub, ops) == end.history.subrange(
                stream.cursors[sub] as int,
                end.cursors[sub] as int,
            )
        }),
    decreases ops.len(),
{
    let end = stream.after_ops(sub, ops);
    let at = stream.cursors[sub] as int;
    if ops.len() == 0 {
        assert(end.history.take(stream.history.len() as int) =~= stream.history);
        assert(stream.received(sub, ops) =~= end.history.subrange(at, at));
    } else {
        let rest = ops.drop_first();
        match ops[0] {
            StreamOp::Publish(event) => {
                let next = stream.after_publish(event);
                lemma_delivery_in_order(next, sub, rest);
                assert(end.history.take(stream.history.len() as int) =~= stream.history) by {
                    assert(end.history.take(next.history.len() as int) == next.history);
                    assert forall|i: int| 0 <= i < stream.history.len() implies end.history[i]
                        == stream.history[i] by {
                        assert(end.history.take(next.history.len() as int)[i] == next.history[i]);
                    }
                }
            },
            StreamOp::Read => {
                let next = stream.after_next(sub);
                lemma_delivery_in_order(next, sub, rest);
                if !stream.loses(sub, ops) {
                    if stream.next_delivery(sub) matches Some(DeliveryView::Event(event)) {
                        assert(end.history.take(stream.history.len() as int)[at]
                            == stream.history[at]);
                        assert(stream.received(sub, ops) =~= end.history.subrange(
                            at,
                            end.cursors[sub] as int,
                        ));
                    } else {
                        assert(next.cursors =~= stream.cursors);
                    }
                }
            },
        }
    }
}

/// The deliveries that hand out each of `events`, in order.
pub open spec fn as_deliveries(events: Seq<AgentEventView>) -> Seq<Option<DeliveryView>> {
    events.map_values(|e: AgentEventView| Some(DeliveryView::Event(e)))
}

/// Publishing to an open stream appends to its history and changes nothing
/// else, as long as the count of events is not exhausted.
pub proof fn lemma_publish_all(stream: EventStreamView, events: Seq<AgentEventView>)
    requires
        stream.well_formed(),
        !stream.closed,
        stream.history.len() + events.len() <= u64::MAX,
    ensures
        stream.after_publish_all(events) == (EventStreamView {
            history: stream.history + events,
            ..stream
        }),
        stream.after_publish_all(events).well_formed(),
    decreases events.len(),
{
    if events.len() == 0 {
        assert(stream.history + events =~= stream.history);
    } else {
        let next = stream.after_publish(events[0]);
        lemma_publish_all(next, events.drop_first());
        assert(next.history + events.drop_first() =~= stream.history + events);
    }
}

/// A subscriber whose next `reads` events are all still kept reads exactly
/// those events, each once, in the order of their publication.
pub proof fn lemma_reads_in_order(stream: EventStreamView, sub: int, reads: nat)
    requires
        stream.well_formed(),
        0 <= sub < stream.cursors.len(),
        stream.retained_from() <= stream.cursors[sub],
        stream.cursors[sub] + reads <= stream.history.len(),
    ensures
        stream.observed(sub, reads) == as_deliveries(
            stream.history.subrange(
                stream.cursors[sub] as int,
                stream.cursors[sub] as int + reads as int,
            ),
        ),
        stream.after_reads(sub, reads) == (EventStreamView {
            cursors: stream.cursors.update(sub, (stream.cursors[sub] + reads) as nat),
            ..stream
        }),
    decreases reads,
{
    let at = stream.cursors[sub] as int;
    if reads == 0 {
        assert(stream.observed(sub, reads) =~= as_deliveries(stream.history.subrange(at, at)));
        assert(stream.cursors.update(sub, stream.cursors[sub]) =~= stream.cursors);
    } else {
        let next = stream.after_next(sub);
        lemma_reads_in_order(next, sub, (reads - 1) as nat);
        assert(next.cursors.update(sub, (at + reads) as nat) =~= stream.cursors.update(
            sub,
            (at + reads) as nat,
        ));
        assert(stream.observed(sub, reads) =~= as_deliveries(
            stream.history.subrange(at, at + reads),
        ));
    }
}

/// A subscriber that is no more events behind than the stream keeps has lost
/// nothing: the event it waits for is still there.
pub proof fn lemma_within_capacity_no_loss(stream: EventStreamView, sub: int)
    requires
        stream.well_formed(),
        0 <= sub < stream.cursors.len(),
        stream.history.len() - stream.cursors[sub] <= stream.capacity,
    ensures
        stream.retained_from() <= stream.cursors[sub],
        !(stream.next_delivery(sub) matches Some(DeliveryView::Lagged(_))),
{
}

/// Ordering: a subscriber that has read everything published so far, as one
/// has that subscribed before publication began, and then reads after
/// `events` were published, observes all of them, each once and in the order
/// of publication, and after them nothing more. This holds as long as the
/// stream keeps that many events.
pub proof fn lemma_ordering(stream: EventStreamView, sub: int, events: Seq<AgentEventView>)
    requires
        stream.well_formed(),
        !stream.closed,
        0 <= sub < stream.cursors.len(),
        stream.cursors[sub] == stream.history.len(),
        events.len() <= stream.capacity,
        stream.history.len() + events.len() <= u64::MAX,
    ensures
        stream.after_publish_all(events).observed(sub, events.len()) == as_deliveries(events),
        stream.after_publish_all(events).after_reads(sub, events.len()).next_delivery(sub) is None,
{
    lemma_publish_all(stream, events);
    let later = stream.after_publish_all(events);
    lemma_reads_in_order(later, sub, events.len());
    assert(later.history.subrange(stream.history.len() as int, later.history.len() as int)
        =~= events);
}

/// Late subscription: a subscriber that joins after `earlier` was published
/// observes none of it. What it observes is exactly what is published after
/// it joined, in order.
pub proof fn lemma_late_subscription(
    stream: EventStreamView,
    earlier: Seq<AgentEventView>,
    later: Seq<AgentEventView>,
)
    requires
        stream.well_formed(),
        !stream.closed,
        later.len() <= stream.capacity,
        stream.history.len() + earlier.len() + later.len() <= u64::MAX,
    ensures
        ({
            let joined = stream.after_publish_all(earlier).after_subscribe();
            let sub = stream.cursors.len() as int;
            &&& joined.next_delivery(sub) is None
            &&& joined.after_publish_all(later).observed(sub, later.len()) == as_deliveries(later)
            &&& joined.after_publish_all(later).after_reads(sub, later.len()).next_delivery(sub)
                is None
        }),
{
    lemma_publish_all(stream, earlier);
    let joined = stream.after_publish_all(earlier).after_subscribe();
    lemma_ordering(joined, stream.cursors.len() as int, later);
}

/// Independence of subscribers: a read by one subscriber changes neither
/// what another one gets next nor where it stands.
pub proof fn lemma_readers_independent(stream: EventStreamView, reader: int, other: int)
    requires
        reader != other,
    ensures
        stream.after_next(reader).next_delivery(other) == stream.next_delivery(other),
        0 <= other < stream.cursors.len() ==> stream.after_next(reader).cursors[other]
            == stream.cursors[other],
{
}

/// The parts of a stream that change: the events kept, the counters, and the
/// ghost of everything published.
struct Log {
    buffer: Vec<AgentEvent>,
    published: u64,
    cursors: Vec<u64>,
    closed: bool,
    history: Ghost<Seq<AgentEventView>>,
}

impl Log {
    spec fn view_with(self, capacity: nat) -> EventStreamView {
        EventStreamView {
            history: self.history@,
            capacity,
            cursors: self.cursors@.map_values(|c: u64| c as nat),
            closed: self.closed,
        }
    }

    /// The counters agree with the history, and the buffer holds the latest
    /// events, as many as the capacity allows.
    spec fn wf(self, capacity: nat) -> bool {
        let view = self.view_with(capacity);
        &&& view.well_formed()
        &&& self.published == self.history@.len()
        &&& self.buffer.len() == self.history@.len() - view.retained_from()
        &&& forall|i: int|
            0 <= i < self.buffer.len() ==> (#[trigger] self.buffer[i])@ == self.history@[
                view.retained_from() + i
            ]
    }

    /// The log of a stream on which nothing happened yet. It is sound
    /// whatever the capacity.
    fn empty() -> (r: Log)
        ensures
            forall|capacity: nat| #[trigger] r.wf(capacity),
            forall|capacity: nat| #[trigger]
                r.view_with(capacity) == (EventStreamView {
                    history: Seq::empty(),
                    capacity,
                    cursors: Seq::empty(),
                    closed: false,
                }),
    {
        let r = Log {
            buffer: Vec::new(),
            published: 0,
            cursors: Vec::new(),
            closed: false,
            history: Ghost(Seq::empty()),
        };
        assert forall|capacity: nat| #[trigger]
            r.view_with(capacity) == (EventStreamView {
                history: Seq::empty(),
                capacity,
                cursors: Seq::empty(),
                closed: false,
            }) by {
            assert(r.view_with(capacity).cursors =~= Seq::<nat>::empty());
        }
        r
    }
}

/// The event stream of one computation.
pub struct EventStream {
    capacity: usize,
    log: Log,
}

impl View for EventStream {
    type V = EventStreamView;

    closed spec fn view(&self) -> EventStreamView {
        self.log.view_with(self.capacity as nat)
    }
}

impl EventStream {
    #[verifier::type_invariant]
    spec fn wf(&self) -> bool {
        self.log.wf(self.capacity as nat)
    }

    /// Takes the log out to work on it, leaving an empty one in its place.
    fn take_log(&mut self) -> (log: Log)
        ensures
            log == old(self).log,
            log.wf(old(self).capacity as nat),
            final(self).capacity == old(self).capacity,
    {
        proof {
            use_type_invariant(&*self);
        }
        let mut log = Log::empty();
        std::mem::swap(&mut log, &mut self.log);
        log
    }

    /// An open stream that keeps up to `capacity` events, with nothing
    /// published and nobody subscribed.
    pub fn new(capacity: usize) -> (r: Self)
        ensures
            r@ == (EventStreamView {
                history: Seq::empty(),
                capacity: capacity as nat,
                cursors: Seq::empty(),
                closed: false,
            }),
            r@.well_formed(),
    {
        EventStream { capacity, log: Log::empty() }
    }

    /// The number of events published so far.
    pub fn published(&self) -> (r: u64)
        ensures
            r == self@.history.len(),
            self@.well_formed(),
    {
        proof {
            use_type_invariant(self);
        }
        self.log.published
    }

    /// The number of subscribers.
    pub fn subscriber_count(&self) -> (r: usize)
        ensures
            r == self@.cursors.len(),
    {
        self.log.cursors.len()
    }

    /// Tells whether the producer has finished.
    pub fn is_closed(&self) -> (r: bool)
        ensures
            r == self@.closed,
    {
        self.log.closed
    }

    /// Appends `event` to the stream, for every subscriber to read. When the
    /// stream is full the oldest event kept makes room. A stream that is
    /// closed, or whose count of events is exhausted, takes nothing and says
    /// so.
    pub fn publish(&mut self, event: AgentEvent) -> (accepted: bool)
        ensures
            final(self)@ == old(self)@.after_publish(event@),
            accepted == old(self)@.accepts(),
            final(self)@.well_formed(),
    {
        proof {
            use_type_invariant(&*self);
        }
        if self.log.closed || self.log.published == u64::MAX {
            return false;
        }
        let mut log = self.take_log();
        let ghost before = log;
        let ghost capacity = self.capacity as nat;
        log.history = Ghost(log.history@.push(event@));
        log.published = log.published + 1;
        if self.capacity > 0 {
            if log.buffer.len() == self.capacity {
                log.buffer.remove(0);
            }
            log.buffer.push(event);
        }
        proof {
            assert(log.view_with(capacity).cursors =~= before.view_with(capacity).cursors);
            let first = log.view_with(capacity).retained_from();
            assert forall|i: int| 0 <= i < log.buffer.len() implies (#[trigger] log.buffer[i])@
                == log.history@[first + i] by {
                if i < log.buffer.len() - 1 {
                    if before.buffer.len() == capacity {
                        assert(log.buffer[i] == before.buffer[i + 1]);
                    } else {
                        assert(log.buffer[i] == before.buffer[i]);
                    }
                }
            }
        }
        self.log = log;
        true
    }

    /// Marks the end of the stream: the producer finished or was aborted.
    /// Subscribers read what is left and then the end.
    pub fn close(&mut self)
        ensures
            final(self)@ == (EventStreamView { closed: true, ..old(self)@ }),
            final(self)@.well_formed(),
    {
        let mut log = self.take_log();
        let ghost before = log;
        let ghost capacity = self.capacity as nat;
        log.closed = true;
        proof {
            assert(log.view_with(capacity).cursors =~= before.view_with(capacity).cursors);
        }
        self.log = log;
    }

    /// Adds a subscriber that starts from now and returns its number.
    pub fn subscribe(&mut self) -> (sub: usize)
        ensures
            final(self)@ == old(self)@.after_subscribe(),
            sub == old(self)@.cursors.len(),
            final(self)@.well_formed(),
    {
        let mut log = self.take_log();
        let ghost before = log;
        let ghost capacity = self.capacity as nat;
        let sub = log.cursors.len();
        log.cursors.push(log.published);
        proof {
            assert(log.view_with(capacity).cursors =~= before.view_with(capacity).cursors.push(
                before.history@.len(),
            ));
        }
        self.log = log;
        sub
    }

    /// Reads the next item for subscriber `sub`, if there is one.
    pub fn next(&mut self, sub: usize) -> (r: Option<Delivery>)
        ensures
            final(self)@ == old(self)@.after_next(sub as int),
            final(self)@.well_formed(),
            match r {
                Some(delivery) => old(self)@.next_delivery(sub as int) == Some(delivery@),
                None => old(self)@.next_delivery(sub as int) is None,
            },
    {
        proof {
            use_type_invariant(&*self);
        }
        if sub >= self.log.cursors.len() {
            return Some(Delivery::Closed);
        }
        let mut log = self.take_log();
        let ghost before = log;
        let ghost capacity = self.capacity as nat;
        let at: u64 = log.cursors[sub];
        let kept: u64 = log.buffer.len() as u64;
        let first: u64 = log.published - kept;
        proof {
            assert(before.view_with(capacity).cursors[sub as int] == at as nat);
            assert(first == before.view_with(capacity).retained_from());
        }
        let r = if at < first {
            log.cursors[sub] = first;
            proof {
                assert(log.view_with(capacity).cursors =~= before.view_with(
                    capacity,
                ).cursors.update(sub as int, first as nat));
            }
            Some(Delivery::Lagged(first - at))
        } else if at < log.published {
            let index: usize = (at - first) as usize;
            let event = log.buffer[index].clone();
            log.cursors[sub] = at + 1;
            proof {
                assert(log.view_with(capacity).cursors =~= before.view_with(
                    capacity,
                ).cursors.update(sub as int, (at + 1) as nat));
            }
            Some(Delivery::Event(event))
        } else if log.closed {
            Some(Delivery::Closed)
        } else {
            None
        };
        self.log = log;
        r
    }
}

} // verus!
