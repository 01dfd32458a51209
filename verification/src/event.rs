//! The events a running agent reports, and the state machine that decides
//! when an exchange built on them is over.

use vstd::prelude::*;

verus! {

/// A tool invocation requested by the agent.
#[derive(Debug)]
pub struct ToolCall {
    pub tool_name: String,
    pub arguments: String,
}

pub struct ToolCallView {
    pub tool_name: Seq<char>,
    pub arguments: Seq<char>,
}

impl View for ToolCall {
    type V = ToolCallView;

    open spec fn view(&self) -> ToolCallView {
        ToolCallView { tool_name: self.tool_name@, arguments: self.arguments@ }
    }
}

impl Clone for ToolCall {
    fn clone(&self) -> (r: Self)
        ensures
            r@ == self@,
    {
        ToolCall { tool_name: self.tool_name.clone(), arguments: self.arguments.clone() }
    }
}

/// How a tool invocation ended.
#[derive(Debug)]
pub enum ToolResult {
    Success { output: String },
    Error { error: String },
    Denied,
}

pub enum ToolResultView {
    Success { output: Seq<char> },
    Error { error: Seq<char> },
    Denied,
}

impl View for ToolResult {
    type V = ToolResultView;

    open spec fn view(&self) -> ToolResultView {
        match self {
            ToolResult::Success { output } => ToolResultView::Success { output: output@ },
            ToolResult::Error { error } => ToolResultView::Error { error: error@ },
            ToolResult::Denied => ToolResultView::Denied,
        }
    }
}

impl Clone for ToolResult {
    fn clone(&self) -> (r: Self)
        ensures
            r@ == self@,
    {
        match self {
            ToolResult::Success { output } => ToolResult::Success { output: output.clone() },
            ToolResult::Error { error } => ToolResult::Error { error: error.clone() },
            ToolResult::Denied => ToolResult::Denied,
        }
    }
}

/// The externally visible status of an agent.
#[derive(Clone, Copy, Debug, PartialEq, Eq, Structural)]
pub enum PublicAgentState {
    Starting,
    Running,
    Processing,
    Paused,
    Completed,
    Cancelled,
    Failed,
}

/// One part of a multi-part chat message. Only text parts carry words the
/// agent can be given; the others keep a reference to their payload.
#[derive(Debug)]
pub enum ChatMessageContentPart {
    Text(String),
    Image(String),
    Audio(String),
}

pub enum ChatMessageContentPartView {
    Text(Seq<char>),
    Image(Seq<char>),
    Audio(Seq<char>),
}

impl View for ChatMessageContentPart {
    type V = ChatMessageContentPartView;

    open spec fn view(&self) -> ChatMessageContentPartView {
        match self {
            ChatMessageContentPart::Text(t) => ChatMessageContentPartView::Text(t@),
            ChatMessageContentPart::Image(u) => ChatMessageContentPartView::Image(u@),
            ChatMessageContentPart::Audio(d) => ChatMessageContentPartView::Audio(d@),
        }
    }
}

impl Clone for ChatMessageContentPart {
    fn clone(&self) -> (r: Self)
        ensures
            r@ == self@,
    {
        match self {
            ChatMessageContentPart::Text(t) => ChatMessageContentPart::Text(t.clone()),
            ChatMessageContentPart::Image(u) => ChatMessageContentPart::Image(u.clone()),
            ChatMessageContentPart::Audio(d) => ChatMessageContentPart::Audio(d.clone()),
        }
    }
}

/// The views of a list of content parts, in order.
pub open spec fn parts_view(parts: Seq<ChatMessageContentPart>) -> Seq<ChatMessageContentPartView> {
    parts.map_values(|p: ChatMessageContentPart| p@)
}

fn clone_parts(parts: &Vec<ChatMessageContentPart>) -> (r: Vec<ChatMessageContentPart>)
    ensures
        parts_view(r@) == parts_view(parts@),
{
    let mut out: Vec<ChatMessageContentPart> = Vec::new();
    let mut i: usize = 0;
    while i < parts.len()
        invariant
            i <= parts.len(),
            out.len() == i,
            forall|j: int| 0 <= j < i ==> out@[j]@ == parts@[j]@,
        decreases parts.len() - i,
    {
        out.push(parts[i].clone());
        i += 1;
    }
    assert(parts_view(out@) =~= parts_view(parts@));
    out
}

/// The body of a chat message.
#[derive(Debug)]
pub enum ChatMessageContent {
    Text(String),
    ContentPart(Vec<ChatMessageContentPart>),
    Empty,
}

pub enum ChatMessageContentView {
    Text(Seq<char>),
    ContentPart(Seq<ChatMessageContentPartView>),
    Empty,
}

impl View for ChatMessageContent {
    type V = ChatMessageContentView;

    open spec fn view(&self) -> ChatMessageContentView {
        match self {
            ChatMessageContent::Text(t) => ChatMessageContentView::Text(t@),
            ChatMessageContent::ContentPart(parts) => ChatMessageContentView::ContentPart(
                parts_view(parts@),
            ),
            ChatMessageContent::Empty => ChatMessageContentView::Empty,
        }
    }
}

impl Clone for ChatMessageContent {
    fn clone(&self) -> (r: Self)
        ensures
            r@ == self@,
    {
        match self {
            ChatMessageContent::Text(t) => ChatMessageContent::Text(t.clone()),
            ChatMessageContent::ContentPart(parts) => ChatMessageContent::ContentPart(
                clone_parts(parts),
            ),
            ChatMessageContent::Empty => ChatMessageContent::Empty,
        }
    }
}

/// A turn of a conversation, by the role that authored it.
#[derive(Debug)]
#[allow(inconsistent_fields)]
pub enum ChatMessage {
    Developer { content: ChatMessageContent },
    System { content: ChatMessageContent },
    User { content: ChatMessageContent },
    Assistant { content: Option<ChatMessageContent> },
    Tool { content: ChatMessageContent, tool_call_id: String },
}

#[allow(inconsistent_fields)]
pub enum ChatMessageView {
    Developer { content: ChatMessageContentView },
    System { content: ChatMessageContentView },
    User { content: ChatMessageContentView },
    Assistant { content: Option<ChatMessageContentView> },
    Tool { content: ChatMessageContentView, tool_call_id: Seq<char> },
}

impl View for ChatMessage {
    type V = ChatMessageView;

    open spec fn view(&self) -> ChatMessageView {
        match self {
            ChatMessage::Developer { content } => ChatMessageView::Developer { content: content@ },
            ChatMessage::System { content } => ChatMessageView::System { content: content@ },
            ChatMessage::User { content } => ChatMessageView::User { content: content@ },
            ChatMessage::Assistant { content } => ChatMessageView::Assistant {
                content: match content {
                    Some(c) => Some(c@),
                    None => None,
                },
            },
            ChatMessage::Tool { content, tool_call_id } => ChatMessageView::Tool {
                content: content@,
                tool_call_id: tool_call_id@,
            },
        }
    }
}

impl Clone for ChatMessage {
    fn clone(&self) -> (r: Self)
        ensures
            r@ == self@,
    {
        match self {
            ChatMessage::Developer { content } => ChatMessage::Developer { content: content.clone() },
            ChatMessage::System { content } => ChatMessage::System { content: content.clone() },
            ChatMessage::User { content } => ChatMessage::User { content: content.clone() },
            ChatMessage::Assistant { content } => ChatMessage::Assistant {
                content: match content {
                    Some(c) => Some(c.clone()),
                    None => None,
                },
            },
            ChatMessage::Tool { content, tool_call_id } => ChatMessage::Tool {
                content: content.clone(),
                tool_call_id: tool_call_id.clone(),
            },
        }
    }
}

/// Why the agent, or a request made of it, failed.
#[derive(Debug)]
pub enum AgentError {
    /// The named agent or model is unknown or its configuration is unusable.
    ConfigurationError(String),
    /// Forwarding input to the running agent failed.
    SubmissionError(String),
    /// Asking the running agent to stop failed.
    CancellationError(String),
    /// An item could not be produced or delivered while streaming.
    StreamError(String),
}

pub enum AgentErrorView {
    ConfigurationError(Seq<char>),
    SubmissionError(Seq<char>),
    CancellationError(Seq<char>),
    StreamError(Seq<char>),
}

impl View for AgentError {
    type V = AgentErrorView;

    open spec fn view(&self) -> AgentErrorView {
        match self {
            AgentError::ConfigurationError(m) => AgentErrorView::ConfigurationError(m@),
            AgentError::SubmissionError(m) => AgentErrorView::SubmissionError(m@),
            AgentError::CancellationError(m) => AgentErrorView::CancellationError(m@),
            AgentError::StreamError(m) => AgentErrorView::StreamError(m@),
        }
    }
}

impl Clone for AgentError {
    fn clone(&self) -> (r: Self)
        ensures
            r@ == self@,
    {
        match self {
            AgentError::ConfigurationError(m) => AgentError::ConfigurationError(m.clone()),
            AgentError::SubmissionError(m) => AgentError::SubmissionError(m.clone()),
            AgentError::CancellationError(m) => AgentError::CancellationError(m.clone()),
            AgentError::StreamError(m) => AgentError::StreamError(m.clone()),
        }
    }
}

/// One unit of progress reported by a running agent. Events of one run are
/// totally ordered by the order in which they were emitted.
#[derive(Debug)]
pub enum AgentEvent {
    StatusChanged { old_status: PublicAgentState, new_status: PublicAgentState },
    ThinkingStart,
    BrainResult { thought: Result<ChatMessage, AgentError> },
    ToolCallStarted { call: ToolCall },
    ToolCallCompleted { call: ToolCall, result: ToolResult },
    UserInput { input: String },
    Completed { success: bool, message: String },
    Error { error: String },
}

pub enum AgentEventView {
    StatusChanged { old_status: PublicAgentState, new_status: PublicAgentState },
    ThinkingStart,
    BrainResult { thought: Result<ChatMessageView, AgentErrorView> },
    ToolCallStarted { call: ToolCallView },
    ToolCallCompleted { call: ToolCallView, result: ToolResultView },
    UserInput { input: Seq<char> },
    Completed { success: bool, message: Seq<char> },
    Error { error: Seq<char> },
}

impl View for AgentEvent {
    type V = AgentEventView;

    open spec fn view(&self) -> AgentEventView {
        match self {
            AgentEvent::StatusChanged { old_status, new_status } => AgentEventView::StatusChanged {
                old_status: *old_status,
                new_status: *new_status,
            },
            AgentEvent::ThinkingStart => AgentEventView::ThinkingStart,
            AgentEvent::BrainResult { thought } => AgentEventView::BrainResult {
                thought: match thought {
                    Ok(m) => Ok(m@),
                    Err(e) => Err(e@),
                },
            },
            AgentEvent::ToolCallStarted { call } => AgentEventView::ToolCallStarted { call: call@ },
            AgentEvent::ToolCallCompleted { call, result } => AgentEventView::ToolCallCompleted {
                call: call@,
                result: result@,
            },
            AgentEvent::UserInput { input } => AgentEventView::UserInput { input: input@ },
            AgentEvent::Completed { success, message } => AgentEventView::Completed {
                success: *success,
                message: message@,
            },
            AgentEvent::Error { error } => AgentEventView::Error { error: error@ },
        }
    }
}

impl Clone for AgentEvent {
    fn clone(&self) -> (r: Self)
        ensures
            r@ == self@,
    {
        match self {
            AgentEvent::StatusChanged { old_status, new_status } => AgentEvent::StatusChanged {
                old_status: *old_status,
                new_status: *new_status,
            },
            AgentEvent::ThinkingStart => AgentEvent::ThinkingStart,
            AgentEvent::BrainResult { thought } => AgentEvent::BrainResult {
                thought: match thought {
                    Ok(m) => Ok(m.clone()),
                    Err(e) => Err(e.clone()),
                },
            },
            AgentEvent::ToolCallStarted { call } => AgentEvent::ToolCallStarted { call: call.clone() },
            AgentEvent::ToolCallCompleted { call, result } => AgentEvent::ToolCallCompleted {
                call: call.clone(),
                result: result.clone(),
            },
            AgentEvent::UserInput { input } => AgentEvent::UserInput { input: input.clone() },
            AgentEvent::Completed { success, message } => AgentEvent::Completed {
                success: *success,
                message: message.clone(),
            },
            AgentEvent::Error { error } => AgentEvent::Error { error: error.clone() },
        }
    }
}

/// Where an exchange stands after the events delivered so far.
#[derive(Clone, Copy, Debug, PartialEq, Eq, Structural)]
pub enum StreamPhase {
    Running,
    Completed,
    Paused,
    Errored,
}

/// The phase a single event leads to when it arrives while running.
pub open spec fn phase_entered(event: AgentEventView) -> StreamPhase {
    match event {
        AgentEventView::Completed { .. } => StreamPhase::Completed,
        AgentEventView::Error { .. } => StreamPhase::Errored,
        AgentEventView::StatusChanged { new_status, .. } => if new_status
            == PublicAgentState::Paused {
            StreamPhase::Paused
        } else {
            StreamPhase::Running
        },
        _ => StreamPhase::Running,
    }
}

/// Whether an event ends the exchange: completion, an error, or a change of
/// status into the paused state.
pub open spec fn is_terminal(event: AgentEventView) -> bool {
    phase_entered(event) != StreamPhase::Running
}

/// The phase after `event` arrives in phase `phase`: a terminal phase is
/// never left, and a running exchange moves to the phase the event enters.
pub open spec fn phase_step(phase: StreamPhase, event: AgentEventView) -> StreamPhase {
    if phase == StreamPhase::Running {
        phase_entered(event)
    } else {
        phase
    }
}

/// The phase after a whole sequence of events, starting from `phase`.
pub open spec fn phase_after(phase: StreamPhase, events: Seq<AgentEventView>) -> StreamPhase
    decreases events.len(),
{
    if events.len() == 0 {
        phase
    } else {
        phase_after(phase_step(phase, events[0]), events.drop_first())
    }
}

impl StreamPhase {
    /// Whether no further event is processed in this phase.
    pub open spec fn is_final(self) -> bool {
        self != StreamPhase::Running
    }

    pub fn is_finished(&self) -> (r: bool)
        ensures
            r == self.is_final(),
    {
        match self {
            StreamPhase::Running => false,
            _ => true,
        }
    }

    /// Moves the state machine by one event.
    pub fn advance(self, event: &AgentEvent) -> (r: StreamPhase)
        ensures
            r == phase_step(self, event@),
    {
        match self {
            StreamPhase::Running => match event {
                AgentEvent::Completed { .. } => StreamPhase::Completed,
                AgentEvent::Error { .. } => StreamPhase::Errored,
                AgentEvent::StatusChanged { new_status, .. } => match new_status {
                    PublicAgentState::Paused => StreamPhase::Paused,
                    _ => StreamPhase::Running,
                },
                _ => StreamPhase::Running,
            },
            other => other,
        }
    }
}

/// Tells whether `event` ends the stream it is delivered on.
pub fn is_terminal_event(event: &AgentEvent) -> (r: bool)
    ensures
        r == is_terminal(event@),
{
    match event {
        AgentEvent::Completed { .. } => true,
        AgentEvent::Error { .. } => true,
        AgentEvent::StatusChanged { new_status, .. } => match new_status {
            PublicAgentState::Paused => true,
            _ => false,
        },
        _ => false,
    }
}

/// Once a terminal phase is reached no later event changes it.
pub proof fn lemma_final_phase_absorbs(phase: StreamPhase, events: Seq<AgentEventView>)
    requires
        phase.is_final(),
    ensures
        phase_after(phase, events) == phase,
    decreases events.len(),
{
    if events.len() > 0 {
        lemma_final_phase_absorbs(phase, events.drop_first());
    }
}

/// Delivering one more event moves the phase reached so far by one step.
pub proof fn lemma_phase_push(phase: StreamPhase, events: Seq<AgentEventView>, event: AgentEventView)
    ensures
        phase_after(phase, events.push(event)) == phase_step(phase_after(phase, events), event),
    decreases events.len(),
{
    let all = events.push(event);
    if events.len() == 0 {
        assert(all.drop_first() =~= Seq::<AgentEventView>::empty());
        assert(phase_after(phase_step(phase, event), all.drop_first()) == phase_step(phase, event));
    } else {
        assert(all.drop_first() =~= events.drop_first().push(event));
        lemma_phase_push(phase_step(phase, events[0]), events.drop_first(), event);
    }
}

} // verus!
