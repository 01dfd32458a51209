use shai_http::agent::{
    agent_config_name, agent_creation_error, create_agent_from_model, describe_error, ErrorKind,
    ErrorResponse, ServerState,
};
use shai_http::event::AgentError;
use shai_http::mcp_config::{create_mcp_client, McpClient, McpConfig, OAuthToken, EXPIRY_MARGIN_SECS};
use shai_http::simple::{
    AgentTool, AssistantMessage, Message, MultiModalQuery, MultiModalResponse,
    MultiModalStreamingResponse, PreviousCall, ResponseMessage, ToolCall, ToolCallResult,
    UserMessage,
};
use std::collections::HashMap;

fn token(expires_at: Option<i64>) -> OAuthToken {
    OAuthToken { access_token: "secret".to_string(), expires_at }
}

#[test]
fn token_expiry_has_a_margin_of_60_seconds() {
    assert_eq!(EXPIRY_MARGIN_SECS, 60);
    let now = 1_700_000_000;
    assert!(token(Some(now - 1)).is_expired_at(now));
    assert!(token(Some(now)).is_expired_at(now));
    assert!(token(Some(now + 59)).is_expired_at(now));
    assert!(token(Some(now + 60)).is_expired_at(now));
    assert!(!token(Some(now + 61)).is_expired_at(now));
    assert!(!token(Some(i64::MAX)).is_expired_at(now));
    assert!(!token(None).is_expired_at(now));
    assert!(!token(None).is_expired_at(i64::MAX));
}

#[test]
fn token_expiry_at_the_ends_of_the_range() {
    assert!(token(Some(i64::MAX)).is_expired_at(i64::MAX));
    assert!(token(Some(i64::MAX)).is_expired_at(i64::MAX - 59));
    assert!(token(Some(i64::MAX)).is_expired_at(i64::MAX - 60));
    assert!(!token(Some(i64::MAX)).is_expired_at(i64::MAX - 61));
    assert!(token(Some(i64::MIN)).is_expired_at(i64::MIN));
    assert!(!token(Some(i64::MIN + 61)).is_expired_at(i64::MIN));
    assert!(token(Some(i64::MIN + 60)).is_expired_at(i64::MIN));
}

#[test]
fn token_expiry_by_a_reading_of_the_clock() {
    assert!(token(Some(60)).is_expired_by(0));
    assert!(!token(Some(61)).is_expired_by(0));
    assert!(token(Some(-5)).is_expired_by(0));
    assert!(token(Some(1_700_000_060)).is_expired_by(1_700_000_000));
    assert!(!token(Some(1_700_000_061)).is_expired_by(1_700_000_000));
    assert!(token(Some(i64::MAX)).is_expired_by(u64::MAX));
    assert!(token(Some(i64::MAX)).is_expired_by(i64::MAX as u64 - 60));
    assert!(!token(Some(i64::MAX)).is_expired_by(i64::MAX as u64 - 61));
    assert!(!token(None).is_expired_by(u64::MAX));
    assert!(!token(None).is_expired_by(0));
}

#[test]
fn token_expiry_by_the_clock() {
    assert!(token(Some(i64::MIN)).is_expired());
    assert!(token(Some(i64::MIN + 60)).is_expired());
    assert!(token(Some(0)).is_expired());
    assert!(token(Some(1_000_000_000)).is_expired());
    assert!(!token(Some(i64::MAX)).is_expired());
    assert!(!token(None).is_expired());
    let now = std::time::SystemTime::now()
        .duration_since(std::time::UNIX_EPOCH)
        .unwrap()
        .as_secs() as i64;
    assert!(token(Some(now + 30)).is_expired());
    assert!(!token(Some(now + 3600)).is_expired());
}

#[test]
fn client_for_each_transport() {
    match create_mcp_client(McpConfig::Stdio {
        command: "npx".to_string(),
        args: vec!["-y".to_string(), "server".to_string()],
    }) {
        McpClient::Stdio(c) => {
            assert_eq!(c.command, "npx");
            assert_eq!(c.args, vec!["-y".to_string(), "server".to_string()]);
        }
        other => panic!("wrong client {:?}", other),
    }
    match create_mcp_client(McpConfig::Http {
        url: "https://mcp.example/".to_string(),
        auth: Some(token(Some(5))),
    }) {
        McpClient::Http(c) => {
            assert_eq!(c.url, "https://mcp.example/");
            assert_eq!(c.bearer_token, Some("secret".to_string()));
        }
        other => panic!("wrong client {:?}", other),
    }
    match create_mcp_client(McpConfig::Http { url: "http://open/".to_string(), auth: None }) {
        McpClient::Http(c) => {
            assert_eq!(c.url, "http://open/");
            assert_eq!(c.bearer_token, None);
        }
        other => panic!("wrong client {:?}", other),
    }
    match create_mcp_client(McpConfig::Sse { url: "http://sse/".to_string() }) {
        McpClient::Sse(c) => assert_eq!(c.url, "http://sse/"),
        other => panic!("wrong client {:?}", other),
    }
}

#[test]
fn model_name_selects_the_agent_configuration() {
    assert_eq!(agent_config_name(""), None);
    assert_eq!(agent_config_name("default"), None);
    assert_eq!(agent_config_name("Default"), Some("Default".to_string()));
    assert_eq!(agent_config_name("default "), Some("default ".to_string()));
    assert_eq!(agent_config_name("coder"), Some("coder".to_string()));
}

#[test]
fn creation_errors_are_classified() {
    let missing = agent_creation_error(
        "ghost",
        AgentError::ConfigurationError("agent config 'ghost' does not exist".to_string()),
    );
    assert_eq!(missing.kind, ErrorKind::NotFound);
    assert_eq!(missing.message, "Agent 'ghost' not found");

    let bad = agent_creation_error(
        "broken",
        AgentError::ConfigurationError("invalid toml at line 3".to_string()),
    );
    assert_eq!(bad.kind, ErrorKind::InvalidRequest);
    assert_eq!(bad.message, "invalid toml at line 3");

    let internal =
        agent_creation_error("m", AgentError::SubmissionError("does not exist".to_string()));
    assert_eq!(internal.kind, ErrorKind::InternalError);
    assert_eq!(internal.message, "Failed to create agent: submission error: does not exist");

    let stream = agent_creation_error("m", AgentError::StreamError("pipe".to_string()));
    assert_eq!(stream.kind, ErrorKind::InternalError);
    assert_eq!(stream.message, "Failed to create agent: stream error: pipe");
}

#[test]
fn created_agent_passes_through_and_failure_becomes_a_response() {
    let ok = create_agent_from_model("coder", Ok::<u32, AgentError>(7));
    assert_eq!(ok.ok(), Some(7));
    let missing = create_agent_from_model(
        "ghost",
        Err::<u32, AgentError>(AgentError::ConfigurationError("does not exist".to_string())),
    );
    let response = missing.err().expect("a failure");
    assert_eq!(response.kind, ErrorKind::NotFound);
    assert_eq!(response.message, "Agent 'ghost' not found");
}

#[test]
fn errors_describe_themselves() {
    assert_eq!(
        describe_error(&AgentError::ConfigurationError("a".to_string())),
        "configuration error: a"
    );
    assert_eq!(describe_error(&AgentError::SubmissionError("b".to_string())), "submission error: b");
    assert_eq!(
        describe_error(&AgentError::CancellationError("c".to_string())),
        "cancellation error: c"
    );
    assert_eq!(describe_error(&AgentError::StreamError(String::new())), "stream error: ");
}

#[test]
fn error_response_constructors() {
    let a = ErrorResponse::not_found("x".to_string());
    assert_eq!((a.kind, a.message.as_str()), (ErrorKind::NotFound, "x"));
    let b = ErrorResponse::invalid_request("y".to_string());
    assert_eq!((b.kind, b.message.as_str()), (ErrorKind::InvalidRequest, "y"));
    let c = ErrorResponse::internal_error("z".to_string());
    assert_eq!((c.kind, c.message.as_str()), (ErrorKind::InternalError, "z"));
    assert_eq!(ServerState {}, ServerState {});
    assert_eq!(ErrorKind::NotFound.status_code(), 404);
    assert_eq!(ErrorKind::InvalidRequest.status_code(), 400);
    assert_eq!(ErrorKind::InternalError.status_code(), 500);
}

#[test]
fn simple_protocol_values_hold_their_parts() {
    let mut args = HashMap::new();
    args.insert("q".to_string(), "capital of France".to_string());
    let call = ToolCall { tool: "search".to_string(), args, output: None };
    let result = ToolCallResult {
        text: Some("Paris".to_string()),
        text_stream: None,
        image: None,
        speech: None,
        other: None,
        error: None,
        extra: None,
    };
    let previous = PreviousCall { call: call.clone(), result: result.clone() };
    let query = MultiModalQuery {
        model: "default".to_string(),
        stream: true,
        messages: Some(vec![
            Message::User(UserMessage { message: "hi".to_string(), attached_files: None }),
            Message::Assistant(AssistantMessage { assistant: "hello".to_string() }),
            Message::PreviousCall(previous.clone()),
        ]),
        tools: Some(vec![AgentTool {
            name: "search".to_string(),
            description: "web search".to_string(),
            parameters: Some("{\"type\":\"object\"}".to_string()),
        }]),
    };
    assert_eq!(query.messages.as_ref().unwrap().len(), 3);
    assert_eq!(query.tools.as_ref().unwrap()[0].name, "search");
    let item = MultiModalStreamingResponse {
        id: "1".to_string(),
        model: "default".to_string(),
        assistant: None,
        call: Some(call),
        result: Some(result),
    };
    assert_eq!(item.call.unwrap().args["q"], "capital of France");
    let response = MultiModalResponse {
        id: "1".to_string(),
        model: "default".to_string(),
        result: vec![
            ResponseMessage::Assistant(AssistantMessage { assistant: "Paris".to_string() }),
            ResponseMessage::PreviousCall(previous),
        ],
    };
    assert_eq!(response.result.len(), 2);
}
