//! The chat-completion responses this library produces, as plain data: one
//! chunk per streamed delta, and one response for a whole exchange.

use vstd::prelude::*;

verus! {

/// Why generation stopped.
#[derive(Clone, Copy, Debug, PartialEq, Eq, Structural)]
pub enum FinishReason {
    StopSequenceReached,
    TokenLimitReached,
    ContentFilterFlagged,
    ToolCalls,
    EndTurn,
}

/// The view of an optional text.
pub open spec fn opt_text(o: Option<String>) -> Option<Seq<char>> {
    match o {
        Some(s) => Some(s@),
        None => None,
    }
}

/// An increment of an assistant message: final content, or a fragment of
/// reasoning that must not be taken for the answer.
#[derive(Debug)]
pub struct DeltaChatMessage {
    pub content: Option<String>,
    pub reasoning_content: Option<String>,
}

pub struct DeltaChatMessageView {
    pub content: Option<Seq<char>>,
    pub reasoning_content: Option<Seq<char>>,
}

impl View for DeltaChatMessage {
    type V = DeltaChatMessageView;

    open spec fn view(&self) -> DeltaChatMessageView {
        DeltaChatMessageView {
            content: opt_text(self.content),
            reasoning_content: opt_text(self.reasoning_content),
        }
    }
}

/// A delta that carries only reasoning.
pub open spec fn reasoning_delta(text: Seq<char>) -> DeltaChatMessageView {
    DeltaChatMessageView { content: None, reasoning_content: Some(text) }
}

/// A delta that carries only final content.
pub open spec fn content_delta(text: Seq<char>) -> DeltaChatMessageView {
    DeltaChatMessageView { content: Some(text), reasoning_content: None }
}

impl DeltaChatMessage {
    pub fn reasoning(text: String) -> (r: Self)
        ensures
            r@ == reasoning_delta(text@),
    {
        DeltaChatMessage { content: None, reasoning_content: Some(text) }
    }

    pub fn content(text: String) -> (r: Self)
        ensures
            r@ == content_delta(text@),
    {
        DeltaChatMessage { content: Some(text), reasoning_content: None }
    }
}

/// One choice of a streamed chunk.
#[derive(Debug)]
pub struct ChatCompletionChunkChoice {
    pub index: Option<u32>,
    pub delta: DeltaChatMessage,
    pub finish_reason: Option<FinishReason>,
}

pub struct ChatCompletionChunkChoiceView {
    pub index: Option<u32>,
    pub delta: DeltaChatMessageView,
    pub finish_reason: Option<FinishReason>,
}

impl View for ChatCompletionChunkChoice {
    type V = ChatCompletionChunkChoiceView;

    open spec fn view(&self) -> ChatCompletionChunkChoiceView {
        ChatCompletionChunkChoiceView {
            index: self.index,
            delta: self.delta@,
            finish_reason: self.finish_reason,
        }
    }
}

/// One streamed chunk of a chat completion.
#[derive(Debug)]
pub struct ChatCompletionChunkResponse {
    pub id: Option<String>,
    pub object: String,
    pub created: u32,
    pub model: String,
    pub choices: Vec<ChatCompletionChunkChoice>,
}

pub struct ChatCompletionChunkResponseView {
    pub id: Option<Seq<char>>,
    pub object: Seq<char>,
    pub created: u32,
    pub model: Seq<char>,
    pub choices: Seq<ChatCompletionChunkChoiceView>,
}

impl View for ChatCompletionChunkResponse {
    type V = ChatCompletionChunkResponseView;

    open spec fn view(&self) -> ChatCompletionChunkResponseView {
        ChatCompletionChunkResponseView {
            id: opt_text(self.id),
            object: self.object@,
            created: self.created,
            model: self.model@,
            choices: self.choices@.map_values(|c: ChatCompletionChunkChoice| c@),
        }
    }
}

/// The one choice of a complete response: the assistant's text and why it
/// stopped.
#[derive(Debug)]
pub struct ChatCompletionChoice {
    pub index: u32,
    pub message: String,
    pub finish_reason: Option<FinishReason>,
}

pub struct ChatCompletionChoiceView {
    pub index: u32,
    pub message: Seq<char>,
    pub finish_reason: Option<FinishReason>,
}

impl View for ChatCompletionChoice {
    type V = ChatCompletionChoiceView;

    open spec fn view(&self) -> ChatCompletionChoiceView {
        ChatCompletionChoiceView {
            index: self.index,
            message: self.message@,
            finish_reason: self.finish_reason,
        }
    }
}

/// A complete, non-streamed chat completion.
#[derive(Debug)]
pub struct ChatCompletionResponse {
    pub id: Option<String>,
    pub object: String,
    pub created: u32,
    pub model: String,
    pub choices: Vec<ChatCompletionChoice>,
}

pub struct ChatCompletionResponseView {
    pub id: Option<Seq<char>>,
    pub object: Seq<char>,
    pub created: u32,
    pub model: Seq<char>,
    pub choices: Seq<ChatCompletionChoiceView>,
}

impl View for ChatCompletionResponse {
    type V = ChatCompletionResponseView;

    open spec fn view(&self) -> ChatCompletionResponseView {
        ChatCompletionResponseView {
            id: opt_text(self.id),
            object: self.object@,
            created: self.created,
            model: self.model@,
            choices: self.choices@.map_values(|c: ChatCompletionChoice| c@),
        }
    }
}

/// The low 32 bits of a count of seconds, as a timestamp field holds it.
pub open spec fn low_u32(secs: int) -> int {
    secs % 0x1_0000_0000
}

/// Narrows a count of seconds to the 32 bits of a `created` field, keeping
/// the low bits.
pub fn created_from(secs: i64) -> (r: u32)
    ensures
        r as int == low_u32(secs as int),
{
    if secs >= 0 {
        let wide: u64 = secs as u64;
        (wide % 0x1_0000_0000u64) as u32
    } else {
        let below: u64 = (-(secs + 1)) as u64;
        let rem: u64 = below % 0x1_0000_0000u64;
        let r: u64 = 0xFFFF_FFFFu64 - rem;
        proof {
            let q = (below as int) / 0x1_0000_0000;
            assert(below as int == q * 0x1_0000_0000 + rem as int) by {
                vstd::arithmetic::div_mod::lemma_fundamental_div_mod(below as int, 0x1_0000_0000);
            }
            assert(secs as int == (-q - 1) * 0x1_0000_0000 + r as int) by (nonlinear_arith)
                requires
                    below as int == q * 0x1_0000_0000 + rem as int,
                    secs as int == -(below as int) - 1,
                    r as int == 0xFFFF_FFFF - rem as int,
            ;
            vstd::arithmetic::div_mod::lemma_fundamental_div_mod_converse(
                secs as int,
                0x1_0000_0000,
                -q - 1,
                r as int,
            );
        }
        r as u32
    }
}

/// The seconds since the Unix epoch that a reading of the clock stands for.
/// A clock that reads a time before the epoch counts as reading the epoch.
pub open spec fn reading_seconds(reading: Option<u64>) -> int {
    match reading {
        Some(secs) => secs as int,
        None => 0,
    }
}

/// The seconds since the Unix epoch that a reading of the clock stands for.
pub fn seconds_of(reading: Option<u64>) -> (secs: u64)
    ensures
        secs as int == reading_seconds(reading),
{
    match reading {
        Some(secs) => secs,
        None => 0,
    }
}

/// The `created` field for a reading of the clock: the low 32 bits of its
/// seconds.
pub fn created_from_reading(reading: Option<u64>) -> (r: u32)
    ensures
        r as int == low_u32(reading_seconds(reading)),
{
    let secs = seconds_of(reading);
    (secs % 0x1_0000_0000u64) as u32
}

} // verus!
