//! The messages of the simple multimodal protocol, as plain data.

use std::collections::HashMap;
use vstd::prelude::*;

verus! {

/// A tool call as the protocol writes it.
#[derive(Debug, Clone)]
pub struct ToolCall {
    pub tool: String,
    pub args: HashMap<String, String>,
    pub output: Option<String>,
}

/// What a tool call gave back, by kind of payload.
#[derive(Debug, Clone)]
pub struct ToolCallResult {
    pub text: Option<String>,
    pub text_stream: Option<String>,
    pub image: Option<String>,
    pub speech: Option<String>,
    pub other: Option<String>,
    pub error: Option<String>,
    pub extra: Option<HashMap<String, String>>,
}

/// A tool call of an earlier turn together with its result.
#[derive(Debug, Clone)]
pub struct PreviousCall {
    pub call: ToolCall,
    pub result: ToolCallResult,
}

/// A message from the user, with the files attached to it by name, each as
/// base64 text.
#[derive(Debug, Clone)]
pub struct UserMessage {
    pub message: String,
    pub attached_files: Option<HashMap<String, String>>,
}

/// A message from the assistant.
#[derive(Debug, Clone)]
pub struct AssistantMessage {
    pub assistant: String,
}

/// One entry of the conversation a query carries.
#[derive(Debug, Clone)]
pub enum Message {
    User(UserMessage),
    Assistant(AssistantMessage),
    PreviousCall(PreviousCall),
}

/// A tool offered to the agent. The parameters are a JSON schema, kept as
/// the text that encodes it.
#[derive(Debug, Clone)]
pub struct AgentTool {
    pub name: String,
    pub description: String,
    pub parameters: Option<String>,
}

/// A query of the multimodal protocol.
#[derive(Debug, Clone)]
pub struct MultiModalQuery {
    pub model: String,
    pub stream: bool,
    pub messages: Option<Vec<Message>>,
    pub tools: Option<Vec<AgentTool>>,
}

/// One streamed item of an answer: a piece of assistant text, a tool call,
/// or the result of one.
#[derive(Debug, Clone)]
pub struct MultiModalStreamingResponse {
    pub id: String,
    pub model: String,
    pub assistant: Option<String>,
    pub call: Option<ToolCall>,
    pub result: Option<ToolCallResult>,
}

/// One entry of a complete answer.
#[derive(Debug, Clone)]
pub enum ResponseMessage {
    Assistant(AssistantMessage),
    PreviousCall(PreviousCall),
}

/// A complete answer.
#[derive(Debug, Clone)]
pub struct MultiModalResponse {
    pub id: String,
    pub model: String,
    pub result: Vec<ResponseMessage>,
}

} // verus!
