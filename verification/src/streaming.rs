//! Stream assembly: feeding delivered events to a formatter and deciding,
//! item by item, what goes out and when the outbound stream closes.

use vstd::prelude::*;
use crate::event::{
    is_terminal, is_terminal_event, lemma_final_phase_absorbs, lemma_phase_push, phase_after,
    phase_step, AgentEvent, AgentEventView, StreamPhase,
};
use crate::lifecycle::{cleanup_for, CleanupAction, RequestEnd};
use crate::session::RequestSession;

verus! {

/// Turns agent events into the output items of one wire protocol.
///
/// A formatter is called once per delivered event, in delivery order, never
/// concurrently. It may keep state between calls. `formats` says which
/// outcomes of one call the implementation admits.
pub trait EventFormatter: Sized {
    type Output;

    /// Whether, from the state `self`, formatting `event` may leave the
    /// formatter in state `after` and hand back `out`.
    spec fn formats(
        &self,
        event: AgentEventView,
        session_id: Seq<char>,
        after: &Self,
        out: Option<Self::Output>,
    ) -> bool;

    /// Converts one event; `None` keeps the event out of the outbound stream.
    fn format_event(&mut self, event: AgentEvent, session_id: &str) -> (out: Option<Self::Output>)
        ensures
            old(self).formats(event@, session_id@, final(self), out),
    ;

    /// The name under which an output item is sent.
    fn event_name(&self, output: &Self::Output) -> (name: &str)
        ensures
            !self.names_its_events() ==> name@ == "message"@,
    {
        "message"
    }

    /// Whether this formatter chooses the names of its events itself. One
    /// that does not sends every item as `message`; one that does says so
    /// here and states the names on its own `event_name`.
    open spec fn names_its_events(&self) -> bool {
        false
    }
}

/// The views of a list of events, in order.
pub open spec fn events_view(events: Seq<AgentEvent>) -> Seq<AgentEventView> {
    events.map_values(|e: AgentEvent| e@)
}

/// How many of `events` reach the formatter: all of them up to and including
/// the first terminal one.
pub open spec fn live_len(events: Seq<AgentEventView>) -> nat
    decreases events.len(),
{
    if events.len() == 0 {
        0
    } else if is_terminal(events[0]) {
        1
    } else {
        1 + live_len(events.drop_first())
    }
}

/// The events that reach the formatter: `events` cut off after its first
/// terminal event.
pub open spec fn live_prefix(events: Seq<AgentEventView>) -> Seq<AgentEventView> {
    events.take(live_len(events) as int)
}

/// `live_len` never exceeds the number of events; nothing before the last
/// live event is terminal; and the cut falls short of the whole sequence only
/// behind a terminal event.
pub proof fn lemma_live_len(events: Seq<AgentEventView>)
    ensures
        live_len(events) <= events.len(),
        forall|i: int| 0 <= i < live_len(events) - 1 ==> !is_terminal(events[i]),
        live_len(events) < events.len() ==> is_terminal(events[live_len(events) - 1]),
        phase_after(StreamPhase::Running, events).is_final() <==> (live_len(events) > 0
            && is_terminal(events[live_len(events) - 1])),
    decreases events.len(),
{
    if events.len() == 0 {
    } else if is_terminal(events[0]) {
        lemma_final_phase_absorbs(phase_step(StreamPhase::Running, events[0]), events.drop_first());
    } else {
        let rest = events.drop_first();
        lemma_live_len(rest);
        assert forall|i: int| 0 <= i < live_len(events) - 1 implies !is_terminal(events[i]) by {
            if i > 0 {
                assert(events[i] == rest[i - 1]);
            }
        }
    }
}

/// Terminal truncation: once a terminal event has been delivered, nothing
/// delivered after it reaches the formatter, whatever follows.
pub proof fn lemma_terminal_truncation(events: Seq<AgentEventView>, later: Seq<AgentEventView>)
    requires
        exists|i: int| 0 <= i < events.len() && is_terminal(events[i]),
    ensures
        live_prefix(events + later) == live_prefix(events),
        live_len(events + later) == live_len(events),
    decreases events.len(),
{
    let all = events + later;
    assert(all[0] == events[0]);
    if is_terminal(events[0]) {
        assert(all.take(1) =~= events.take(1));
    } else {
        let rest = events.drop_first();
        let i = choose|i: int| 0 <= i < events.len() && is_terminal(events[i]);
        assert(rest[i - 1] == events[i]);
        assert(all.drop_first() =~= rest + later);
        lemma_terminal_truncation(rest, later);
        lemma_live_len(rest);
        assert(all.take(live_len(all) as int) =~= events.take(live_len(events) as int));
    }
}

/// One more event reaches the formatter exactly when no terminal event came
/// before it.
pub proof fn lemma_live_push(events: Seq<AgentEventView>, event: AgentEventView)
    ensures
        live_prefix(events.push(event)) == if phase_after(StreamPhase::Running, events).is_final() {
            live_prefix(events)
        } else {
            events.push(event)
        },
        !phase_after(StreamPhase::Running, events).is_final() ==> live_prefix(events) == events,
        phase_after(StreamPhase::Running, events.push(event)) == phase_step(
            phase_after(StreamPhase::Running, events),
            event,
        ),
{
    let all = events.push(event);
    lemma_phase_push(StreamPhase::Running, events, event);
    lemma_live_len(events);
    lemma_live_len(all);
    if phase_after(StreamPhase::Running, events).is_final() {
        assert(all =~= events + seq![event]);
        lemma_terminal_truncation(events, seq![event]);
    } else {
        if live_len(all) < all.len() {
            assert(all[live_len(all) - 1] == events[live_len(all) - 1]);
        }
        assert(all.take(all.len() as int) =~= all);
        assert(events.take(events.len() as int) =~= events);
    }
}

/// What a subscription yields when it is asked for its next item.
#[derive(Debug)]
pub enum Delivery {
    /// The next event, in emission order.
    Event(AgentEvent),
    /// The subscriber fell behind and this many events were lost to it.
    Lagged(u64),
    /// The producer finished or was aborted.
    Closed,
}

pub enum DeliveryView {
    Event(AgentEventView),
    Lagged(nat),
    Closed,
}

impl View for Delivery {
    type V = DeliveryView;

    open spec fn view(&self) -> DeliveryView {
        match self {
            Delivery::Event(event) => DeliveryView::Event(event@),
            Delivery::Lagged(missed) => DeliveryView::Lagged(*missed as nat),
            Delivery::Closed => DeliveryView::Closed,
        }
    }
}

/// What the outbound stream does after one delivery.
#[derive(Debug)]
pub enum Step<T> {
    /// Send this item, then go on.
    Emit(T),
    /// Send nothing, then go on.
    Skip,
    /// End the outbound stream.
    Close,
}

impl<T> Step<T> {
    /// The item this step sends, if it sends one.
    pub open spec fn item(self) -> Option<T> {
        match self {
            Step::Emit(item) => Some(item),
            _ => None,
        }
    }
}

/// The state of one outbound stream.
pub struct StreamAssembly {
    phase: StreamPhase,
    source_ended: bool,
    delivered: Ghost<Seq<AgentEventView>>,
}

impl StreamAssembly {
    #[verifier::type_invariant]
    spec fn consistent(self) -> bool {
        self.phase == phase_after(StreamPhase::Running, self.delivered@)
    }

    /// The events delivered so far while the subscription was open, terminal
    /// or not, on time or late.
    pub closed spec fn delivered(&self) -> Seq<AgentEventView> {
        self.delivered@
    }

    /// Whether the subscription has reported its end or an error.
    pub closed spec fn source_ended(&self) -> bool {
        self.source_ended
    }

    /// The phase the delivered events have led to.
    pub open spec fn phase(&self) -> StreamPhase {
        phase_after(StreamPhase::Running, self.delivered())
    }

    /// The events that were handed to the formatter.
    pub open spec fn formatted(&self) -> Seq<AgentEventView> {
        live_prefix(self.delivered())
    }

    /// Whether the outbound stream takes no further item.
    pub open spec fn is_over(&self) -> bool {
        self.phase().is_final() || self.source_ended()
    }

    /// The state of a stream on which nothing was delivered yet.
    pub fn new() -> (r: Self)
        ensures
            r.delivered() == Seq::<AgentEventView>::empty(),
            !r.source_ended(),
            !r.is_over(),
    {
        StreamAssembly {
            phase: StreamPhase::Running,
            source_ended: false,
            delivered: Ghost(Seq::empty()),
        }
    }

    /// The phase the delivered events have led to.
    pub fn current_phase(&self) -> (r: StreamPhase)
        ensures
            r == self.phase(),
    {
        proof {
            use_type_invariant(self);
        }
        self.phase
    }

    /// Tells whether the outbound stream takes no further item.
    pub fn finished(&self) -> (r: bool)
        ensures
            r == self.is_over(),
    {
        proof {
            use_type_invariant(self);
        }
        self.phase.is_finished() || self.source_ended
    }

    /// Decides what one delivery does to the outbound stream.
    ///
    /// An event that arrives while the stream is running is handed to the
    /// formatter; its output is sent, and a terminal event closes the stream
    /// behind it, at once where it formats to nothing. An event that arrives
    /// after a terminal one is recorded as delivered and never formatted. A
    /// lagged or closed subscription ends the stream, and whatever is handed
    /// in after that is ignored.
    pub fn on_delivery<F: EventFormatter>(
        &mut self,
        formatter: &mut F,
        delivery: Delivery,
        session_id: &str,
    ) -> (step: Step<F::Output>)
        ensures
            match delivery {
                Delivery::Event(event) => if old(self).source_ended() {
                    &&& step is Close
                    &&& final(self).delivered() == old(self).delivered()
                    &&& final(self).source_ended()
                    &&& *final(formatter) == *old(formatter)
                } else {
                    &&& final(self).delivered() == old(self).delivered().push(event@)
                    &&& !final(self).source_ended()
                    &&& final(self).phase() == phase_step(old(self).phase(), event@)
                    &&& if old(self).phase().is_final() {
                        &&& step is Close
                        &&& *final(formatter) == *old(formatter)
                        &&& final(self).formatted() == old(self).formatted()
                    } else {
                        &&& final(self).formatted() == old(self).formatted().push(event@)
                        &&& match step {
                            Step::Emit(item) => old(formatter).formats(
                                event@,
                                session_id@,
                                final(formatter),
                                Some(item),
                            ),
                            Step::Skip => !is_terminal(event@) && old(formatter).formats(
                                event@,
                                session_id@,
                                final(formatter),
                                None,
                            ),
                            Step::Close => is_terminal(event@) && old(formatter).formats(
                                event@,
                                session_id@,
                                final(formatter),
                                None,
                            ),
                        }
                    }
                },
                _ => {
                    &&& step is Close
                    &&& final(self).delivered() == old(self).delivered()
                    &&& final(self).source_ended()
                    &&& *final(formatter) == *old(formatter)
                },
            },
    {
        proof {
            use_type_invariant(&*self);
        }
        match delivery {
            Delivery::Event(event) => {
                if self.source_ended {
                    return Step::Close;
                }
                proof {
                    lemma_live_push(self.delivered@, event@);
                }
                let was_over = self.phase.is_finished();
                let terminal = is_terminal_event(&event);
                *self = StreamAssembly {
                    phase: self.phase.advance(&event),
                    source_ended: false,
                    delivered: Ghost(self.delivered@.push(event@)),
                };
                if was_over {
                    return Step::Close;
                }
                match formatter.format_event(event, session_id) {
                    Some(item) => Step::Emit(item),
                    None => if terminal {
                        Step::Close
                    } else {
                        Step::Skip
                    },
                }
            },
            _ => {
                *self = StreamAssembly {
                    phase: self.phase,
                    source_ended: true,
                    delivered: self.delivered,
                };
                Step::Close
            },
        }
    }

    /// Decides what becomes of an item once it was serialised: the text is
    /// sent; an item that could not be serialised is dropped, and the stream
    /// goes on unless it is over.
    pub fn on_serialized(&self, serialized: Option<String>) -> (step: Step<String>)
        ensures
            step == match serialized {
                Some(text) => Step::Emit(text),
                None => if self.is_over() {
                    Step::<String>::Close
                } else {
                    Step::<String>::Skip
                },
            },
    {
        match serialized {
            Some(text) => Step::Emit(text),
            None => if self.finished() {
                Step::Close
            } else {
                Step::Skip
            },
        }
    }
}

/// The outputs among `outs` that are present, in order.
pub open spec fn present<T>(outs: Seq<Option<T>>) -> Seq<T>
    decreases outs.len(),
{
    if outs.len() == 0 {
        Seq::empty()
    } else {
        match outs.last() {
            Some(item) => present(outs.drop_last()).push(item),
            None => present(outs.drop_last()),
        }
    }
}

/// Whether `states` and `outs` record a run of a formatter over `events`:
/// one call per event, in order, each from the state the call before it left
/// behind, `outs[i]` being what the call on `events[i]` handed back.
pub open spec fn is_run<F: EventFormatter>(
    states: Seq<F>,
    outs: Seq<Option<F::Output>>,
    events: Seq<AgentEventView>,
    session_id: Seq<char>,
) -> bool {
    &&& states.len() == events.len() + 1
    &&& outs.len() == events.len()
    &&& forall|i: int|
        0 <= i < events.len() ==> #[trigger] states[i].formats(
            events[i],
            session_id,
            &states[i + 1],
            outs[i],
        )
}

/// Whether a formatter may go from the state `start` to the state `end` when
/// it is called on each of `events` in turn, handing back exactly `items`, in
/// order, from the calls that produced an output.
pub open spec fn formats_all<F: EventFormatter>(
    start: F,
    events: Seq<AgentEventView>,
    session_id: Seq<char>,
    end: F,
    items: Seq<F::Output>,
) -> bool {
    exists|states: Seq<F>, outs: Seq<Option<F::Output>>|
        {
            &&& #[trigger] is_run(states, outs, events, session_id)
            &&& states[0] == start
            &&& states.last() == end
            &&& items == present(outs)
        }
}

/// Runs a formatter over the events of a finished subscription and collects
/// what goes out: the outputs of the events up to and including the first
/// terminal one, in order. No event behind a terminal one is formatted.
pub fn event_to_sse_stream<F: EventFormatter>(
    events: &Vec<AgentEvent>,
    formatter: &mut F,
    session_id: &str,
) -> (items: Vec<F::Output>)
    ensures
        formats_all(
            *old(formatter),
            live_prefix(events_view(events@)),
            session_id@,
            *final(formatter),
            items@,
        ),
{
    let ghost views = events_view(events@);
    let ghost mut states: Seq<F> = seq![*formatter];
    let ghost mut outs: Seq<Option<F::Output>> = Seq::empty();
    let mut assembly = StreamAssembly::new();
    let mut items: Vec<F::Output> = Vec::new();
    let mut i: usize = 0;
    proof {
        assert(views.take(0) =~= Seq::<AgentEventView>::empty());
        assert(live_prefix(views.take(0)) =~= Seq::<AgentEventView>::empty());
    }
    while i < events.len() && !assembly.finished()
        invariant
            i <= events.len(),
            views == events_view(events@),
            assembly.delivered() == views.take(i as int),
            !assembly.source_ended(),
            is_run(states, outs, live_prefix(views.take(i as int)), session_id@),
            states[0] == *old(formatter),
            states.last() == *formatter,
            items@ == present(outs),
        decreases events.len() - i,
    {
        let ghost before = views.take(i as int);
        let event = events[i].clone();
        proof {
            assert(views.take(i + 1) =~= before.push(event@));
            lemma_live_push(before, event@);
        }
        let step = assembly.on_delivery(formatter, Delivery::Event(event), session_id);
        let ghost out = step.item();
        proof {
            let old_states = states;
            let old_outs = outs;
            states = states.push(*formatter);
            outs = outs.push(out);
            assert(outs.drop_last() =~= old_outs);
            let live = live_prefix(views.take(i + 1));
            assert forall|k: int| 0 <= k < live.len() implies #[trigger] states[k].formats(
                live[k],
                session_id@,
                &states[k + 1],
                outs[k],
            ) by {
                if k < before.len() {
                    assert(old_states[k].formats(
                        before[k],
                        session_id@,
                        &old_states[k + 1],
                        old_outs[k],
                    ));
                }
            }
        }
        match step {
            Step::Emit(item) => {
                items.push(item);
            },
            _ => {},
        }
        i += 1;
    }
    proof {
        let seen = views.take(i as int);
        if i < events.len() {
            lemma_live_len(seen);
            assert(views =~= seen + views.skip(i as int));
            lemma_terminal_truncation(seen, views.skip(i as int));
        } else {
            assert(seen =~= views);
        }
        assert(is_run(states, outs, live_prefix(views), session_id@));
    }
    items
}

/// Runs a formatter over the events of a finished subscription on behalf of
/// a request, as `event_to_sse_stream` does, and then tells the guard of the
/// request that its stream completed normally. Besides the items it hands
/// back what the guard asks for: the cancellation of the computation where
/// the guard was pending and owns its session, and nothing otherwise.
pub fn session_to_sse_stream<F: EventFormatter>(
    request_session: RequestSession,
    events: &Vec<AgentEvent>,
    formatter: &mut F,
    session_id: &str,
) -> (r: (Vec<F::Output>, CleanupAction))
    ensures
        formats_all(
            *old(formatter),
            live_prefix(events_view(events@)),
            session_id@,
            *final(formatter),
            r.0@,
        ),
        r.1 == cleanup_for(request_session.lifecycle@, RequestEnd::Completed),
{
    let mut lifecycle = request_session.lifecycle;
    let items = event_to_sse_stream(events, formatter, session_id);
    let action = lifecycle.complete();
    (items, action)
}

} // verus!
