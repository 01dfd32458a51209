//! The streaming chat-completion formatter: tool activity and the
//! assistant's thoughts become reasoning fragments, and the answer goes out
//! as content once, with the finish marker, when the run ends.

use vstd::prelude::*;
use vstd::string::*;
use crate::chat::{
    content_delta, created_from, created_from_reading, low_u32, reasoning_delta,
    ChatCompletionChunkChoice,
    ChatCompletionChunkChoiceView, ChatCompletionChunkResponse, ChatCompletionChunkResponseView,
    DeltaChatMessage, DeltaChatMessageView, FinishReason,
};
use crate::event::{
    AgentEvent, AgentEventView, ChatMessage, ChatMessageContent, ChatMessageContentView,
    ChatMessageView, ToolResult, ToolResultView,
};
use crate::platform::{random_uuid, unix_timestamp};
use crate::streaming::EventFormatter;
use crate::text::{first_line, first_line_of};

verus! {

/// The latest full assistant text after `event`, given the text `acc` held
/// before it: a plain-text assistant thought replaces it, and so does the
/// message of a completion unless that message is empty.
pub open spec fn latest_text(acc: Seq<char>, event: AgentEventView) -> Seq<char> {
    match event {
        AgentEventView::BrainResult {
            thought: Ok(
                ChatMessageView::Assistant { content: Some(ChatMessageContentView::Text(text)) },
            ),
        } => text,
        AgentEventView::Completed { message, .. } => if message.len() > 0 {
            message
        } else {
            acc
        },
        _ => acc,
    }
}

/// The reasoning fragment that reports the start of a tool call.
pub open spec fn tool_started_text(tool_name: Seq<char>) -> Seq<char> {
    "[toolcall: "@ + tool_name + "]"@
}

/// The reasoning fragment that reports how a tool call ended. A failure is
/// reported with the first line of its error only.
pub open spec fn tool_completed_text(tool_name: Seq<char>, result: ToolResultView) -> Seq<char> {
    match result {
        ToolResultView::Success { .. } => "[tool succeeded: "@ + tool_name + "]"@,
        ToolResultView::Error { error } => "[tool failed: "@ + tool_name + " - "@ + first_line(error)
            + "]"@,
        ToolResultView::Denied => "[tool denied: "@ + tool_name + "]"@,
    }
}

/// The text of the final chunk that reports an agent error.
pub open spec fn error_text(error: Seq<char>) -> Seq<char> {
    "Error: "@ + error
}

/// What the formatter sends for `event` when it held the text `acc`: the
/// delta and the finish marker of the chunk, or `None` when the event stays
/// out of the stream. A plain-text assistant thought goes out as reasoning,
/// like the tool activity; as content it goes out once, with the completion.
pub open spec fn chat_delta(acc: Seq<char>, event: AgentEventView) -> Option<
    (DeltaChatMessageView, Option<FinishReason>),
> {
    match event {
        AgentEventView::BrainResult {
            thought: Ok(
                ChatMessageView::Assistant { content: Some(ChatMessageContentView::Text(text)) },
            ),
        } => Some((reasoning_delta(text), None)),
        AgentEventView::ToolCallStarted { call } => Some(
            (reasoning_delta(tool_started_text(call.tool_name)), None),
        ),
        AgentEventView::ToolCallCompleted { call, result } => Some(
            (reasoning_delta(tool_completed_text(call.tool_name, result)), None),
        ),
        AgentEventView::Completed { .. } => Some(
            (content_delta(latest_text(acc, event)), Some(FinishReason::StopSequenceReached)),
        ),
        AgentEventView::Error { error } => Some(
            (content_delta(error_text(error)), Some(FinishReason::StopSequenceReached)),
        ),
        _ => None,
    }
}

/// The chunk with the given parts: one choice, at index 0.
pub open spec fn chunk_view(
    id: Seq<char>,
    created: u32,
    model: Seq<char>,
    delta: DeltaChatMessageView,
    finish_reason: Option<FinishReason>,
) -> ChatCompletionChunkResponseView {
    ChatCompletionChunkResponseView {
        id: Some(id),
        object: "chat.completion.chunk"@,
        created,
        model,
        choices: seq![ChatCompletionChunkChoiceView { index: Some(0u32), delta, finish_reason }],
    }
}

/// Whether `id` is a chunk identifier: the prefix `chatcmpl-` followed by the
/// 36 characters of a UUID.
pub open spec fn is_chunk_id(id: Seq<char>) -> bool {
    exists|suffix: Seq<char>| suffix.len() == 36 && id == "chatcmpl-"@ + suffix
}

/// Whether `chunk` is the chunk with the given parts under some chunk
/// identifier.
pub open spec fn is_chunk_of(
    chunk: ChatCompletionChunkResponseView,
    created: u32,
    model: Seq<char>,
    delta: DeltaChatMessageView,
    finish_reason: Option<FinishReason>,
) -> bool {
    exists|id: Seq<char>| is_chunk_id(id) && chunk == chunk_view(id, created, model, delta, finish_reason)
}

/// Formatter for streamed chat completions.
pub struct ChatCompletionFormatter {
    pub model: String,
    pub created: u32,
    pub accumulated_text: String,
}

/// What a formatter holds: the model it answers for, the creation time its
/// chunks carry, and the latest full assistant text seen so far.
pub struct ChatCompletionFormatterView {
    pub model: Seq<char>,
    pub created: u32,
    pub accumulated: Seq<char>,
}

impl View for ChatCompletionFormatter {
    type V = ChatCompletionFormatterView;

    open spec fn view(&self) -> ChatCompletionFormatterView {
        ChatCompletionFormatterView {
            model: self.model@,
            created: self.created,
            accumulated: self.accumulated_text@,
        }
    }
}

impl ChatCompletionFormatter {
    /// A formatter for `model` whose chunks carry the current time. A clock
    /// that reads a time before the Unix epoch counts as reading the epoch.
    pub fn new(model: String) -> (r: Self)
        ensures
            r@.model == model@,
            r@.accumulated == Seq::<char>::empty(),
    {
        ChatCompletionFormatter {
            model,
            created: created_from_reading(unix_timestamp()),
            accumulated_text: String::new(),
        }
    }

    /// A formatter for `model` whose chunks carry the time `secs`, in seconds
    /// since the Unix epoch, narrowed to 32 bits.
    pub fn created_at(model: String, secs: i64) -> (r: Self)
        ensures
            r@.model == model@,
            r@.created as int == low_u32(secs as int),
            r@.accumulated == Seq::<char>::empty(),
    {
        ChatCompletionFormatter {
            model,
            created: created_from(secs),
            accumulated_text: String::new(),
        }
    }

    /// The latest full assistant text seen so far.
    pub fn accumulated_text(&self) -> (r: &str)
        ensures
            r@ == self@.accumulated,
    {
        self.accumulated_text.as_str()
    }

    /// The chunk that carries `delta` and `finish_reason` under the
    /// identifier `id`, with this formatter's model and creation time.
    pub fn chunk_with_id(
        &self,
        id: String,
        delta: DeltaChatMessage,
        finish_reason: Option<FinishReason>,
    ) -> (chunk: ChatCompletionChunkResponse)
        ensures
            chunk@ == chunk_view(id@, self@.created, self@.model, delta@, finish_reason),
    {
        let mut choices: Vec<ChatCompletionChunkChoice> = Vec::new();
        choices.push(ChatCompletionChunkChoice { index: Some(0), delta, finish_reason });
        let chunk = ChatCompletionChunkResponse {
            id: Some(id),
            object: String::from_str("chat.completion.chunk"),
            created: self.created,
            model: self.model.clone(),
            choices,
        };
        assert(chunk@.choices =~= seq![
            ChatCompletionChunkChoiceView { index: Some(0u32), delta: delta@, finish_reason },
        ]);
        chunk
    }

    /// The chunk that carries `delta` and `finish_reason` under a fresh
    /// random identifier.
    pub fn create_chunk(&self, delta: DeltaChatMessage, finish_reason: Option<FinishReason>) -> (chunk:
        ChatCompletionChunkResponse)
        ensures
            is_chunk_of(chunk@, self@.created, self@.model, delta@, finish_reason),
    {
        let suffix = random_uuid();
        let id = String::from_str("chatcmpl-").concat(suffix.as_str());
        assert(is_chunk_id(id@));
        self.chunk_with_id(id, delta, finish_reason)
    }
}

fn tool_started_fragment(tool_name: &str) -> (r: String)
    ensures
        r@ == tool_started_text(tool_name@),
{
    String::from_str("[toolcall: ").concat(tool_name).concat("]")
}

fn tool_completed_fragment(tool_name: &str, result: &ToolResult) -> (r: String)
    ensures
        r@ == tool_completed_text(tool_name@, result@),
{
    match result {
        ToolResult::Success { .. } => String::from_str("[tool succeeded: ").concat(
            tool_name,
        ).concat("]"),
        ToolResult::Error { error } => {
            let line = first_line_of(error.as_str());
            String::from_str("[tool failed: ").concat(tool_name).concat(" - ").concat(
                line.as_str(),
            ).concat("]")
        },
        ToolResult::Denied => String::from_str("[tool denied: ").concat(tool_name).concat("]"),
    }
}

impl EventFormatter for ChatCompletionFormatter {
    type Output = ChatCompletionChunkResponse;

    /// The model and creation time stay; the held text follows `latest_text`;
    /// and the output is the chunk that `chat_delta` describes, under a fresh
    /// identifier, or nothing where it describes none.
    open spec fn formats(
        &self,
        event: AgentEventView,
        session_id: Seq<char>,
        after: &Self,
        out: Option<ChatCompletionChunkResponse>,
    ) -> bool {
        &&& after@.model == self@.model
        &&& after@.created == self@.created
        &&& after@.accumulated == latest_text(self@.accumulated, event)
        &&& match chat_delta(self@.accumulated, event) {
            Some((delta, finish_reason)) => out is Some && is_chunk_of(
                out->0@,
                self@.created,
                self@.model,
                delta,
                finish_reason,
            ),
            None => out is None,
        }
    }

    /// Chunks are sent under the plain name `message`.
    fn event_name(&self, output: &ChatCompletionChunkResponse) -> (name: &str)
        ensures
            name@ == "message"@,
    {
        "message"
    }

    fn format_event(&mut self, event: AgentEvent, session_id: &str) -> (out: Option<
        ChatCompletionChunkResponse,
    >) {
        match event {
            AgentEvent::BrainResult { thought } => {
                if let Ok(msg) = thought {
                    if let ChatMessage::Assistant { content: Some(ChatMessageContent::Text(text)) } =
                        msg {
                        let delta = DeltaChatMessage::reasoning(text.clone());
                        self.accumulated_text = text;
                        return Some(self.create_chunk(delta, None));
                    }
                }
                None
            },
            AgentEvent::ToolCallStarted { call } => {
                let thinking_text = tool_started_fragment(call.tool_name.as_str());
                let delta = DeltaChatMessage::reasoning(thinking_text);
                Some(self.create_chunk(delta, None))
            },
            AgentEvent::ToolCallCompleted { call, result } => {
                let thinking_text = tool_completed_fragment(call.tool_name.as_str(), &result);
                let delta = DeltaChatMessage::reasoning(thinking_text);
                Some(self.create_chunk(delta, None))
            },
            AgentEvent::Completed { message, .. } => {
                if !message.as_str().is_empty() {
                    self.accumulated_text = message;
                }
                let delta = DeltaChatMessage::content(self.accumulated_text.clone());
                Some(self.create_chunk(delta, Some(FinishReason::StopSequenceReached)))
            },
            AgentEvent::Error { error } => {
                let text = String::from_str("Error: ").concat(error.as_str());
                let delta = DeltaChatMessage::content(text);
                Some(self.create_chunk(delta, Some(FinishReason::StopSequenceReached)))
            },
            _ => None,
        }
    }
}

} // verus!
