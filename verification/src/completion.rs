//! The non-streaming chat completion: the events of a run are folded into one
//! response, which is complete as soon as a terminal event has been seen.

use vstd::prelude::*;
use vstd::string::*;
use crate::chat::{
    created_from_reading, ChatCompletionChoice, ChatCompletionChoiceView, ChatCompletionResponse,
    ChatCompletionResponseView, FinishReason,
};
use crate::event::{
    is_terminal, phase_after, phase_step, AgentEvent, AgentEventView, ChatMessage,
    ChatMessageContent, StreamPhase,
};
use crate::formatter::latest_text;
use crate::platform::unix_timestamp;
use crate::streaming::{events_view, lemma_live_len, live_prefix};

verus! {

/// What a collector holds: the latest full assistant text, the finish
/// indicator of the response, and the phase the events seen have led to.
pub struct CompletionCollectorView {
    pub final_message: Seq<char>,
    pub finish_reason: FinishReason,
    pub phase: StreamPhase,
}

/// The collector before any event.
pub open spec fn collector_start() -> CompletionCollectorView {
    CompletionCollectorView {
        final_message: Seq::empty(),
        finish_reason: FinishReason::StopSequenceReached,
        phase: StreamPhase::Running,
    }
}

/// The collector after one event. While the run goes on, the text follows the
/// assistant's thoughts and the message of the completion; tool events leave
/// it alone. After a terminal event nothing changes any more. However the
/// run ends, the response finishes on a stop.
pub open spec fn collector_after(
    collector: CompletionCollectorView,
    event: AgentEventView,
) -> CompletionCollectorView {
    if collector.phase.is_final() {
        collector
    } else {
        CompletionCollectorView {
            final_message: latest_text(collector.final_message, event),
            finish_reason: FinishReason::StopSequenceReached,
            phase: phase_step(collector.phase, event),
        }
    }
}

/// The collector after a sequence of events.
pub open spec fn collector_after_all(
    collector: CompletionCollectorView,
    events: Seq<AgentEventView>,
) -> CompletionCollectorView
    decreases events.len(),
{
    if events.len() == 0 {
        collector
    } else {
        collector_after_all(collector_after(collector, events[0]), events.drop_first())
    }
}

/// The response with the given parts: one choice, at index 0, that holds the
/// assistant's text.
pub open spec fn response_view(
    id: Seq<char>,
    created: u32,
    model: Seq<char>,
    message: Seq<char>,
    finish_reason: FinishReason,
) -> ChatCompletionResponseView {
    ChatCompletionResponseView {
        id: Some(id),
        object: "chat.completion"@,
        created,
        model,
        choices: seq![
            ChatCompletionChoiceView { index: 0u32, message, finish_reason: Some(finish_reason) },
        ],
    }
}

/// A collector that has reached a terminal phase ignores whatever follows.
pub proof fn lemma_collector_stops(collector: CompletionCollectorView, events: Seq<AgentEventView>)
    requires
        collector.phase.is_final(),
    ensures
        collector_after_all(collector, events) == collector,
    decreases events.len(),
{
    if events.len() > 0 {
        lemma_collector_stops(collector, events.drop_first());
    }
}

/// The phase of a collector follows the event state machine.
pub proof fn lemma_collector_phase(collector: CompletionCollectorView, events: Seq<AgentEventView>)
    ensures
        collector_after_all(collector, events).phase == phase_after(collector.phase, events),
    decreases events.len(),
{
    if events.len() > 0 {
        lemma_collector_phase(collector_after(collector, events[0]), events.drop_first());
    }
}

/// Terminal truncation for the collected response: it depends on nothing
/// that comes after the first terminal event.
pub proof fn lemma_collector_truncates(events: Seq<AgentEventView>)
    ensures
        collector_after_all(collector_start(), events) == collector_after_all(
            collector_start(),
            live_prefix(events),
        ),
{
    lemma_collector_cut(collector_start(), events);
}

proof fn lemma_collector_cut(collector: CompletionCollectorView, events: Seq<AgentEventView>)
    requires
        collector.phase == StreamPhase::Running,
    ensures
        collector_after_all(collector, events) == collector_after_all(
            collector,
            live_prefix(events),
        ),
    decreases events.len(),
{
    lemma_live_len(events);
    let cut = live_prefix(events);
    if events.len() == 0 {
        assert(cut =~= events);
    } else {
        let rest = events.drop_first();
        let next = collector_after(collector, events[0]);
        assert(cut[0] == events[0]);
        if is_terminal(events[0]) {
            assert(cut.drop_first() =~= Seq::<AgentEventView>::empty());
            lemma_collector_stops(next, rest);
            lemma_collector_stops(next, cut.drop_first());
        } else {
            assert(cut.drop_first() =~= live_prefix(rest));
            lemma_collector_cut(next, rest);
        }
    }
}

/// Collects the events of one run into the parts of a single response.
pub struct CompletionCollector {
    final_message: String,
    finish_reason: FinishReason,
    phase: StreamPhase,
}

impl View for CompletionCollector {
    type V = CompletionCollectorView;

    closed spec fn view(&self) -> CompletionCollectorView {
        CompletionCollectorView {
            final_message: self.final_message@,
            finish_reason: self.finish_reason,
            phase: self.phase,
        }
    }
}

impl CompletionCollector {
    /// A collector that has seen no event.
    pub fn new() -> (r: Self)
        ensures
            r@ == collector_start(),
    {
        CompletionCollector {
            final_message: String::new(),
            finish_reason: FinishReason::StopSequenceReached,
            phase: StreamPhase::Running,
        }
    }

    pub fn final_message(&self) -> (r: &str)
        ensures
            r@ == self@.final_message,
    {
        self.final_message.as_str()
    }

    pub fn finish_reason(&self) -> (r: FinishReason)
        ensures
            r == self@.finish_reason,
    {
        self.finish_reason
    }

    /// Tells whether a terminal event has been seen.
    pub fn is_done(&self) -> (r: bool)
        ensures
            r == self@.phase.is_final(),
    {
        self.phase.is_finished()
    }

    /// Takes in one event and tells whether the response is complete.
    pub fn observe(&mut self, event: AgentEvent) -> (done: bool)
        ensures
            final(self)@ == collector_after(old(self)@, event@),
            done == final(self)@.phase.is_final(),
    {
        if self.phase.is_finished() {
            return true;
        }
        self.phase = self.phase.advance(&event);
        match event {
            AgentEvent::BrainResult { thought } => {
                if let Ok(msg) = thought {
                    if let ChatMessage::Assistant { content: Some(ChatMessageContent::Text(text)) } =
                        msg {
                        self.final_message = text;
                    }
                }
            },
            AgentEvent::Completed { message, .. } => {
                if !message.as_str().is_empty() {
                    self.final_message = message;
                }
            },
            _ => {},
        }
        // A failed run and an error finish on a stop as well: success and
        // failure are told apart by the content.
        self.finish_reason = FinishReason::StopSequenceReached;
        self.phase.is_finished()
    }

    /// Takes in the events of a run, in order.
    pub fn observe_all(&mut self, events: &Vec<AgentEvent>)
        ensures
            final(self)@ == collector_after_all(old(self)@, events_view(events@)),
    {
        let ghost views = events_view(events@);
        let ghost start = self@;
        let mut i: usize = 0;
        assert(views.skip(0) =~= views);
        while i < events.len() && !self.is_done()
            invariant
                i <= events.len(),
                views == events_view(events@),
                collector_after_all(self@, views.skip(i as int)) == collector_after_all(
                    start,
                    views,
                ),
            decreases events.len() - i,
        {
            proof {
                assert(views.skip(i as int).drop_first() =~= views.skip(i + 1));
                assert(views.skip(i as int)[0] == events@[i as int]@);
            }
            self.observe(events[i].clone());
            i += 1;
        }
        proof {
            if i < events.len() {
                lemma_collector_stops(self@, views.skip(i as int));
            } else {
                assert(views.skip(i as int) =~= Seq::<AgentEventView>::empty());
            }
        }
    }

    /// The response that holds what was collected, under the identifier `id`,
    /// created at `created`, for `model`.
    pub fn into_response(self, id: String, created: u32, model: String) -> (r:
        ChatCompletionResponse)
        ensures
            r@ == response_view(
                id@,
                created,
                model@,
                self@.final_message,
                self@.finish_reason,
            ),
    {
        let mut choices: Vec<ChatCompletionChoice> = Vec::new();
        choices.push(
            ChatCompletionChoice {
                index: 0,
                message: self.final_message,
                finish_reason: Some(self.finish_reason),
            },
        );
        let r = ChatCompletionResponse {
            id: Some(id),
            object: String::from_str("chat.completion"),
            created,
            model,
            choices,
        };
        assert(r@.choices =~= seq![
            ChatCompletionChoiceView {
                index: 0u32,
                message: self@.final_message,
                finish_reason: Some(self@.finish_reason),
            },
        ]);
        r
    }
}

/// Whether `response` answers for `model` under the identifier `id` with
/// what `collector` holds, created at some time.
pub open spec fn is_response_of(
    response: ChatCompletionResponseView,
    id: Seq<char>,
    model: Seq<char>,
    collector: CompletionCollectorView,
) -> bool {
    exists|created: u32|
        response == response_view(
            id,
            created,
            model,
            collector.final_message,
            collector.finish_reason,
        )
}

/// Answers a chat completion request for `model` from the events of the run
/// it started: one response, under the identifier of the session, that holds
/// the final assistant text and the current time. A clock that reads a time
/// before the Unix epoch counts as reading the epoch.
pub fn handle_chat_completion(session_id: String, model: String, events: &Vec<AgentEvent>) -> (r:
    ChatCompletionResponse)
    ensures
        is_response_of(
            r@,
            session_id@,
            model@,
            collector_after_all(collector_start(), events_view(events@)),
        ),
{
    let mut collector = CompletionCollector::new();
    collector.observe_all(events);
    let created = created_from_reading(unix_timestamp());
    collector.into_response(session_id, created, model)
}

} // verus!
