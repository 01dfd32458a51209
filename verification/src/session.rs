//! A session binds one running agent to its name and its policy, and sets up
//! each request made of it: which prior turns are replayed to the agent, in
//! what order, and what happens when one of them is refused.

use vstd::prelude::*;
use vstd::string::*;
use crate::chat::opt_text;
use crate::event::{
    parts_view, AgentError, ChatMessage, ChatMessageContent, ChatMessageContentPart,
    ChatMessageContentPartView, ChatMessageContentView, ChatMessageView,
};
use crate::event_stream::{EventStream, EventStreamView};
use crate::lifecycle::{GuardState, RequestLifecycle, RequestLifecycleView};
use crate::streaming::DeliveryView;
use crate::text::{joined, lemma_joined_push};

verus! {

/// The texts of the text parts among `parts`, in order.
pub open spec fn text_parts(parts: Seq<ChatMessageContentPartView>) -> Seq<Seq<char>>
    decreases parts.len(),
{
    if parts.len() == 0 {
        Seq::empty()
    } else {
        match parts.last() {
            ChatMessageContentPartView::Text(t) => text_parts(parts.drop_last()).push(t),
            _ => text_parts(parts.drop_last()),
        }
    }
}

/// The text a message content stands for: a plain text as it is, the text
/// parts of a multi-part content joined by line feeds, and nothing for an
/// empty content.
pub open spec fn content_text(content: ChatMessageContentView) -> Seq<char> {
    match content {
        ChatMessageContentView::Text(t) => t,
        ChatMessageContentView::ContentPart(parts) => joined(text_parts(parts), "\n"@),
        ChatMessageContentView::Empty => Seq::empty(),
    }
}

/// The text of a turn that the user authored; `None` for every other turn.
pub open spec fn user_text(message: ChatMessageView) -> Option<Seq<char>> {
    match message {
        ChatMessageView::User { content } => Some(content_text(content)),
        _ => None,
    }
}

/// The inputs that replaying `trace` forwards to the agent: the text of each
/// turn the user authored, in the order given, without the empty ones.
pub open spec fn replay_texts(trace: Seq<ChatMessageView>) -> Seq<Seq<char>>
    decreases trace.len(),
{
    if trace.len() == 0 {
        Seq::empty()
    } else {
        match user_text(trace.last()) {
            Some(text) => if text.len() > 0 {
                replay_texts(trace.drop_last()).push(text)
            } else {
                replay_texts(trace.drop_last())
            },
            None => replay_texts(trace.drop_last()),
        }
    }
}

/// The views of a list of messages, in order.
pub open spec fn trace_view(trace: Seq<ChatMessage>) -> Seq<ChatMessageView> {
    trace.map_values(|m: ChatMessage| m@)
}

/// The views of a list of texts, in order.
pub open spec fn texts_view(texts: Seq<String>) -> Seq<Seq<char>> {
    texts.map_values(|s: String| s@)
}

fn join_text_parts(parts: &Vec<ChatMessageContentPart>) -> (r: String)
    ensures
        r@ == content_text(ChatMessageContent::ContentPart(*parts)@),
{
    let ghost views = parts_view(parts@);
    let mut out = String::new();
    let mut first = true;
    let mut i: usize = 0;
    while i < parts.len()
        invariant
            i <= parts.len(),
            views == parts_view(parts@),
            first <==> text_parts(views.take(i as int)).len() == 0,
            out@ == joined(text_parts(views.take(i as int)), "\n"@),
        decreases parts.len() - i,
    {
        proof {
            assert(views.take(i + 1).drop_last() =~= views.take(i as int));
            assert(views.take(i + 1).last() == parts@[i as int]@);
        }
        match &parts[i] {
            ChatMessageContentPart::Text(t) => {
                proof {
                    lemma_joined_push(text_parts(views.take(i as int)), "\n"@, t@);
                }
                if first {
                    first = false;
                } else {
                    out.append("\n");
                }
                out.append(t.as_str());
            },
            _ => {},
        }
        i += 1;
    }
    assert(views.take(parts.len() as int) =~= views);
    out
}

/// The text of a turn that the user authored; `None` for every other turn.
pub fn user_text_of(message: &ChatMessage) -> (r: Option<String>)
    ensures
        opt_text(r) == user_text(message@),
{
    match message {
        ChatMessage::User { content } => {
            let text = match content {
                ChatMessageContent::Text(t) => t.clone(),
                ChatMessageContent::ContentPart(parts) => join_text_parts(parts),
                ChatMessageContent::Empty => String::new(),
            };
            Some(text)
        },
        _ => None,
    }
}

/// The inputs to forward to the agent for the prior turns `trace`, in order.
pub fn replay_inputs(trace: &Vec<ChatMessage>) -> (r: Vec<String>)
    ensures
        texts_view(r@) == replay_texts(trace_view(trace@)),
{
    let ghost views = trace_view(trace@);
    let mut out: Vec<String> = Vec::new();
    let mut i: usize = 0;
    while i < trace.len()
        invariant
            i <= trace.len(),
            views == trace_view(trace@),
            texts_view(out@) == replay_texts(views.take(i as int)),
        decreases trace.len() - i,
    {
        proof {
            assert(views.take(i + 1).drop_last() =~= views.take(i as int));
            assert(views.take(i + 1).last() == trace@[i as int]@);
        }
        let ghost before = out@;
        match user_text_of(&trace[i]) {
            Some(text) => {
                if !text.as_str().is_empty() {
                    out.push(text);
                    assert(texts_view(out@) =~= texts_view(before).push(text@));
                }
            },
            None => {},
        }
        i += 1;
    }
    assert(views.take(trace.len() as int) =~= views);
    out
}

/// Where the replay of prior turns stands.
#[derive(Clone, Copy, Debug, PartialEq, Eq, Structural)]
pub enum ReplayStatus {
    /// An input waits to be forwarded.
    Pending,
    /// Every input was accepted.
    Done,
    /// An input was refused; nothing more is forwarded.
    Failed,
}

/// What a replay holds: the inputs to forward, how many of them the agent has
/// accepted, and whether the one after those was refused.
pub struct TurnReplayView {
    pub inputs: Seq<Seq<char>>,
    pub accepted: nat,
    pub failed: bool,
}

impl TurnReplayView {
    pub open spec fn status(self) -> ReplayStatus {
        if self.failed {
            ReplayStatus::Failed
        } else if self.accepted < self.inputs.len() {
            ReplayStatus::Pending
        } else {
            ReplayStatus::Done
        }
    }

    /// The inputs handed to the agent so far, the refused one included.
    pub open spec fn forwarded(self) -> Seq<Seq<char>> {
        if self.failed {
            self.inputs.take(self.accepted as int + 1)
        } else {
            self.inputs.take(self.accepted as int)
        }
    }

    /// The replay after the agent answered the pending input. With no input
    /// pending an answer changes nothing.
    pub open spec fn after(self, accepted: bool) -> TurnReplayView {
        if self.status() == ReplayStatus::Pending {
            if accepted {
                TurnReplayView { accepted: (self.accepted + 1) as nat, ..self }
            } else {
                TurnReplayView { failed: true, ..self }
            }
        } else {
            self
        }
    }

    /// The replay after a sequence of answers.
    pub open spec fn after_all(self, answers: Seq<bool>) -> TurnReplayView
        decreases answers.len(),
    {
        if answers.len() == 0 {
            self
        } else {
            self.after(answers[0]).after_all(answers.drop_first())
        }
    }

    pub open spec fn well_formed(self) -> bool {
        &&& self.accepted <= self.inputs.len()
        &&& self.failed ==> self.accepted < self.inputs.len()
    }
}

/// A refused input ends the replay: whatever answers follow, the replay stays
/// failed and nothing further is forwarded.
pub proof fn lemma_failure_stops_replay(replay: TurnReplayView, answers: Seq<bool>)
    requires
        replay.failed,
    ensures
        replay.after_all(answers) == replay,
    decreases answers.len(),
{
    if answers.len() > 0 {
        lemma_failure_stops_replay(replay, answers.drop_first());
    }
}

/// Whatever the agent answers, the inputs stay as they were, what has been
/// forwarded is a prefix of them in their order, and it holds one input per
/// answer given while an input was pending.
pub proof fn lemma_replay_forwards_prefix(replay: TurnReplayView, answers: Seq<bool>)
    requires
        replay.well_formed(),
    ensures
        replay.after_all(answers).well_formed(),
        replay.after_all(answers).inputs == replay.inputs,
        replay.after_all(answers).forwarded() == replay.inputs.take(
            replay.after_all(answers).forwarded().len() as int,
        ),
        replay.forwarded().len() <= replay.after_all(answers).forwarded().len()
            <= replay.forwarded().len() + answers.len(),
    decreases answers.len(),
{
    if answers.len() > 0 {
        lemma_replay_forwards_prefix(replay.after(answers[0]), answers.drop_first());
    }
}

/// The replay of a request's prior turns to the agent, one input at a time.
pub struct TurnReplay {
    inputs: Vec<String>,
    accepted: usize,
    failed: bool,
}

impl View for TurnReplay {
    type V = TurnReplayView;

    closed spec fn view(&self) -> TurnReplayView {
        TurnReplayView {
            inputs: texts_view(self.inputs@),
            accepted: self.accepted as nat,
            failed: self.failed,
        }
    }
}

impl TurnReplay {
    #[verifier::type_invariant]
    spec fn consistent(self) -> bool {
        &&& self.accepted <= self.inputs.len()
        &&& self.failed ==> self.accepted < self.inputs.len()
    }

    /// The replay of `trace`, with nothing forwarded yet.
    pub fn new(trace: &Vec<ChatMessage>) -> (r: Self)
        ensures
            r@ == (TurnReplayView {
                inputs: replay_texts(trace_view(trace@)),
                accepted: 0,
                failed: false,
            }),
            r@.well_formed(),
    {
        TurnReplay { inputs: replay_inputs(trace), accepted: 0, failed: false }
    }

    pub fn status(&self) -> (r: ReplayStatus)
        ensures
            r == self@.status(),
            self@.well_formed(),
    {
        proof {
            use_type_invariant(self);
        }
        if self.failed {
            ReplayStatus::Failed
        } else if self.accepted < self.inputs.len() {
            ReplayStatus::Pending
        } else {
            ReplayStatus::Done
        }
    }

    /// The input to forward next, while one is pending.
    pub fn next_input(&self) -> (r: Option<String>)
        ensures
            self@.well_formed(),
            opt_text(r) == if self@.status() == ReplayStatus::Pending {
                Some(self@.inputs[self@.accepted as int])
            } else {
                None
            },
    {
        proof {
            use_type_invariant(self);
        }
        if !self.failed && self.accepted < self.inputs.len() {
            Some(self.inputs[self.accepted].clone())
        } else {
            None
        }
    }

    /// Records the agent's answer to the pending input and hands it back
    /// as it is, so that a refused input fails the setup with the agent's
    /// own error.
    pub fn record(&mut self, answer: Result<(), AgentError>) -> (r: Result<(), AgentError>)
        ensures
            r == answer,
            final(self)@ == old(self)@.after(answer is Ok),
            final(self)@.well_formed(),
    {
        proof {
            use_type_invariant(&*self);
        }
        if !self.failed && self.accepted < self.inputs.len() {
            if answer.is_ok() {
                self.accepted = self.accepted + 1;
            } else {
                self.failed = true;
            }
        }
        answer
    }
}

/// What a session holds.
pub struct AgentSessionView {
    pub session_id: Seq<char>,
    pub agent_name: Seq<char>,
    pub ephemeral: bool,
    /// Whether the agent has accepted a cancellation.
    pub cancelled: bool,
    /// Whether the background task has been told to stop.
    pub task_aborted: bool,
    /// How many requests are reading from the session.
    pub active_requests: nat,
}

/// What discarding a session asks of its owner.
#[derive(Clone, Copy, Debug, PartialEq, Eq, Structural)]
pub struct Shutdown {
    /// Ask the agent to stop first, on behalf of the requests that are still
    /// reading.
    pub cancel_readers: bool,
    /// Abort the background task.
    pub abort_task: bool,
}

/// What the setup of a request hands to its handler: the guard that manages
/// the lifecycle of this one request.
pub struct RequestSession {
    pub lifecycle: RequestLifecycle,
}

/// A single agent session: one running agent instance, either ephemeral
/// (torn down when its request ends) or persistent (kept for later requests).
pub struct AgentSession {
    session_id: String,
    agent_name: String,
    ephemeral: bool,
    cancelled: bool,
    task_aborted: bool,
    active_requests: usize,
}

impl View for AgentSession {
    type V = AgentSessionView;

    closed spec fn view(&self) -> AgentSessionView {
        AgentSessionView {
            session_id: self.session_id@,
            agent_name: self.agent_name@,
            ephemeral: self.ephemeral,
            cancelled: self.cancelled,
            task_aborted: self.task_aborted,
            active_requests: self.active_requests as nat,
        }
    }
}

/// The session after one call of `cancel` that the agent answered: the
/// first accepted cancellation is recorded, and a refused one leaves the
/// session as it was.
pub open spec fn after_cancel(session: AgentSessionView, accepted: bool) -> AgentSessionView {
    AgentSessionView { cancelled: session.cancelled || accepted, ..session }
}

/// Whether a call of `cancel` is the one that takes effect: the agent
/// accepted it and had accepted none before.
pub open spec fn takes_effect(session: AgentSessionView, accepted: bool) -> bool {
    accepted && !session.cancelled
}

/// How many of the calls of `cancel`, one after another, take effect, where
/// `answers[i]` says whether the agent accepted the call `i`.
pub open spec fn effective_cancellations(session: AgentSessionView, answers: Seq<bool>) -> nat
    decreases answers.len(),
{
    if answers.len() == 0 {
        0
    } else {
        let first: nat = if takes_effect(session, answers[0]) {
            1
        } else {
            0
        };
        first + effective_cancellations(after_cancel(session, answers[0]), answers.drop_first())
    }
}

/// Idempotent cancellation: however often a session is cancelled, and
/// whatever the agent answers, at most one call takes effect: the first one
/// that the agent accepts, on a session not cancelled before. Once one took
/// effect the session counts as cancelled for good.
pub proof fn lemma_cancel_idempotent(session: AgentSessionView, answers: Seq<bool>)
    ensures
        effective_cancellations(session, answers) <= 1,
        effective_cancellations(session, answers) == 1 <==> !session.cancelled && exists|i: int|
            0 <= i < answers.len() && answers[i],
    decreases answers.len(),
{
    if answers.len() > 0 {
        let rest = answers.drop_first();
        lemma_cancel_idempotent(after_cancel(session, answers[0]), rest);
        if exists|i: int| 0 <= i < rest.len() && rest[i] {
            let i = choose|i: int| 0 <= i < rest.len() && rest[i];
            assert(answers[i + 1]);
        }
        if exists|i: int| 0 <= i < answers.len() && answers[i] {
            let i = choose|i: int| 0 <= i < answers.len() && answers[i];
            if i > 0 {
                assert(rest[i - 1]);
            }
        }
    }
}

/// What discarding `session` asks of its owner. The background task is
/// aborted by the first discard only. Where requests are still reading and
/// the agent has accepted no cancellation yet, it is asked to stop first.
pub open spec fn shutdown_plan(session: AgentSessionView) -> Shutdown {
    Shutdown {
        cancel_readers: !session.task_aborted && !session.cancelled && session.active_requests
            > 0,
        abort_task: !session.task_aborted,
    }
}

/// The session after it was discarded.
pub open spec fn after_shutdown(session: AgentSessionView) -> AgentSessionView {
    AgentSessionView { task_aborted: true, ..session }
}

/// How many of `calls` discards, one after another, abort the background
/// task.
pub open spec fn task_aborts(session: AgentSessionView, calls: nat) -> nat
    decreases calls,
{
    if calls == 0 {
        0
    } else {
        let first: nat = if shutdown_plan(session).abort_task {
            1
        } else {
            0
        };
        first + task_aborts(after_shutdown(session), (calls - 1) as nat)
    }
}

/// However often a session is discarded, its background task is aborted
/// exactly once, by the first discard.
pub proof fn lemma_task_aborted_once(session: AgentSessionView, calls: nat)
    ensures
        task_aborts(session, calls) == if session.task_aborted || calls == 0 {
            0nat
        } else {
            1nat
        },
    decreases calls,
{
    if calls > 0 {
        lemma_task_aborted_once(after_shutdown(session), (calls - 1) as nat);
    }
}

impl AgentSession {
    /// A session under `session_id`, shown as `agent_name`, or as `default`
    /// where no name is given. Nothing was cancelled or aborted yet, and no
    /// request reads from it.
    pub fn new(session_id: String, agent_name: Option<String>, ephemeral: bool) -> (r: Self)
        ensures
            r@ == (AgentSessionView {
                session_id: session_id@,
                agent_name: match agent_name {
                    Some(name) => name@,
                    None => "default"@,
                },
                ephemeral,
                cancelled: false,
                task_aborted: false,
                active_requests: 0,
            }),
    {
        let agent_name_display = match agent_name {
            Some(name) => name,
            None => String::from_str("default"),
        };
        AgentSession {
            session_id,
            agent_name: agent_name_display,
            ephemeral,
            cancelled: false,
            task_aborted: false,
            active_requests: 0,
        }
    }

    pub fn session_id(&self) -> (r: &str)
        ensures
            r@ == self@.session_id,
    {
        self.session_id.as_str()
    }

    pub fn agent_name(&self) -> (r: &str)
        ensures
            r@ == self@.agent_name,
    {
        self.agent_name.as_str()
    }

    pub fn is_ephemeral(&self) -> (r: bool)
        ensures
            r == self@.ephemeral,
    {
        self.ephemeral
    }

    /// Settles one call of `cancel`. Every call is forwarded to the agent,
    /// and `outcome` is what the agent answered: it is handed on as it is,
    /// error and all, and the first success is recorded.
    pub fn cancel(&mut self, outcome: Result<(), AgentError>) -> (r: Result<(), AgentError>)
        ensures
            r == outcome,
            final(self)@ == after_cancel(old(self)@, outcome is Ok),
    {
        if outcome.is_ok() {
            self.cancelled = true;
        }
        outcome
    }

    /// Tells whether the agent has accepted a cancellation.
    pub fn is_cancelled(&self) -> (r: bool)
        ensures
            r == self@.cancelled,
    {
        self.cancelled
    }

    /// Subscribes to the events of this session: `events`, the stream of the
    /// session's computation, gets one more reader, which starts from now
    /// and sees nothing published before. Readers that exist keep their
    /// place.
    pub fn watch(&self, events: &mut EventStream) -> (subscription: usize)
        ensures
            final(events)@ == old(events)@.after_subscribe(),
            subscription == old(events)@.cursors.len(),
            final(events)@.well_formed(),
    {
        events.subscribe()
    }

    /// Starts the setup of a request: the replay of its prior turns.
    pub fn handle_request(&self, trace: &Vec<ChatMessage>) -> (r: TurnReplay)
        ensures
            r@ == (TurnReplayView {
                inputs: replay_texts(trace_view(trace@)),
                accepted: 0,
                failed: false,
            }),
            r@.well_formed(),
    {
        TurnReplay::new(trace)
    }

    /// Ends the setup of a request. Once every input of the replay was
    /// accepted the request gets a pending guard, which owns the session
    /// exactly when the session is ephemeral, and counts as reading from the
    /// session until it is closed. A replay that failed or is unfinished gets
    /// nothing, and no partial request is left behind; nor does a session
    /// that cannot count another reader.
    pub fn open_request(&mut self, replay: &TurnReplay) -> (r: Option<RequestSession>)
        ensures
            r is Some <==> replay@.status() == ReplayStatus::Done && old(self)@.active_requests
                < usize::MAX,
            r is Some ==> r->0.lifecycle@ == (RequestLifecycleView {
                owns: old(self)@.ephemeral,
                session_id: old(self)@.session_id,
                state: GuardState::Pending,
            }),
            final(self)@ == (AgentSessionView {
                active_requests: if r is Some {
                    old(self)@.active_requests + 1
                } else {
                    old(self)@.active_requests
                },
                ..old(self)@
            }),
    {
        match replay.status() {
            ReplayStatus::Done => {
                if self.active_requests == usize::MAX {
                    return None;
                }
                self.active_requests = self.active_requests + 1;
                Some(
                    RequestSession {
                        lifecycle: RequestLifecycle::new(self.ephemeral, self.session_id.clone()),
                    },
                )
            },
            _ => None,
        }
    }

    /// Records that a request stopped reading from the session.
    pub fn close_request(&mut self)
        ensures
            final(self)@ == (AgentSessionView {
                active_requests: if old(self)@.active_requests > 0 {
                    (old(self)@.active_requests - 1) as nat
                } else {
                    0
                },
                ..old(self)@
            }),
    {
        if self.active_requests > 0 {
            self.active_requests = self.active_requests - 1;
        }
    }

    /// The number of requests that read from the session.
    pub fn active_requests(&self) -> (r: usize)
        ensures
            r == self@.active_requests,
    {
        self.active_requests
    }

    /// Discards the session and says what is left to do for its owner. The
    /// stream of the session's events is closed, so that every reader sees
    /// what is left and then the end. The first call has the background task
    /// aborted, and the agent asked to stop beforehand where requests still
    /// read from the session and the agent has accepted no cancellation yet.
    /// Every later call asks for nothing.
    pub fn shutdown(&mut self, events: &mut EventStream) -> (plan: Shutdown)
        ensures
            plan == shutdown_plan(old(self)@),
            final(self)@ == after_shutdown(old(self)@),
            final(events)@ == (EventStreamView { closed: true, ..old(events)@ }),
            final(events)@.well_formed(),
    {
        events.close();
        if self.task_aborted {
            return Shutdown { cancel_readers: false, abort_task: false };
        }
        let cancel_readers = !self.cancelled && self.active_requests > 0;
        self.task_aborted = true;
        Shutdown { cancel_readers, abort_task: true }
    }
}

/// After a session was discarded, a reader of its events that has read all
/// there was sees the end of the stream.
pub proof fn lemma_discarded_stream_ends(events: EventStreamView, sub: int)
    requires
        events.closed,
        0 <= sub < events.cursors.len(),
        events.cursors[sub] == events.history.len(),
    ensures
        events.next_delivery(sub) == Some(DeliveryView::Closed),
        events.after_next(sub) == events,
{
}

} // verus!
