//! Choosing the agent behind a request, and telling the client what went
//! wrong when the agent cannot be created.

use vstd::prelude::*;
use vstd::string::*;
use crate::chat::opt_text;
use crate::event::{AgentError, AgentErrorView};
use crate::text::{contains_seq, contains_text};

verus! {

/// Server state shared by the request handlers.
#[derive(Clone, Copy, Debug, PartialEq, Eq, Structural)]
pub struct ServerState {}

/// The class of a failure as the client sees it.
#[derive(Clone, Copy, Debug, PartialEq, Eq, Structural)]
pub enum ErrorKind {
    /// The target of the request does not exist.
    NotFound,
    /// The request or the configuration it names is unusable.
    InvalidRequest,
    /// The agent or its backend failed.
    InternalError,
}

impl ErrorKind {
    /// The HTTP status that reports a failure of this class.
    pub open spec fn status(self) -> u16 {
        match self {
            ErrorKind::NotFound => 404,
            ErrorKind::InvalidRequest => 400,
            ErrorKind::InternalError => 500,
        }
    }

    /// The HTTP status that reports a failure of this class.
    pub fn status_code(&self) -> (r: u16)
        ensures
            r == self.status(),
    {
        match self {
            ErrorKind::NotFound => 404,
            ErrorKind::InvalidRequest => 400,
            ErrorKind::InternalError => 500,
        }
    }
}

/// A failure reported to the client before any streaming began.
#[derive(Debug)]
pub struct ErrorResponse {
    pub kind: ErrorKind,
    pub message: String,
}

pub struct ErrorResponseView {
    pub kind: ErrorKind,
    pub message: Seq<char>,
}

impl View for ErrorResponse {
    type V = ErrorResponseView;

    open spec fn view(&self) -> ErrorResponseView {
        ErrorResponseView { kind: self.kind, message: self.message@ }
    }
}

impl ErrorResponse {
    pub fn not_found(message: String) -> (r: Self)
        ensures
            r@ == (ErrorResponseView { kind: ErrorKind::NotFound, message: message@ }),
    {
        ErrorResponse { kind: ErrorKind::NotFound, message }
    }

    pub fn invalid_request(message: String) -> (r: Self)
        ensures
            r@ == (ErrorResponseView { kind: ErrorKind::InvalidRequest, message: message@ }),
    {
        ErrorResponse { kind: ErrorKind::InvalidRequest, message }
    }

    pub fn internal_error(message: String) -> (r: Self)
        ensures
            r@ == (ErrorResponseView { kind: ErrorKind::InternalError, message: message@ }),
    {
        ErrorResponse { kind: ErrorKind::InternalError, message }
    }
}

/// The words that describe an error: what kind it is, then what it says.
pub open spec fn error_description(error: AgentErrorView) -> Seq<char> {
    match error {
        AgentErrorView::ConfigurationError(m) => "configuration error: "@ + m,
        AgentErrorView::SubmissionError(m) => "submission error: "@ + m,
        AgentErrorView::CancellationError(m) => "cancellation error: "@ + m,
        AgentErrorView::StreamError(m) => "stream error: "@ + m,
    }
}

/// The words that describe `error`.
pub fn describe_error(error: &AgentError) -> (r: String)
    ensures
        r@ == error_description(error@),
{
    match error {
        AgentError::ConfigurationError(m) => String::from_str("configuration error: ").concat(
            m.as_str(),
        ),
        AgentError::SubmissionError(m) => String::from_str("submission error: ").concat(m.as_str()),
        AgentError::CancellationError(m) => String::from_str("cancellation error: ").concat(
            m.as_str(),
        ),
        AgentError::StreamError(m) => String::from_str("stream error: ").concat(m.as_str()),
    }
}

/// The agent configuration a model name selects: the default one, written
/// `None`, for the empty name and for `default`, and else the configuration
/// of that name.
pub open spec fn config_name(model: Seq<char>) -> Option<Seq<char>> {
    if model.len() == 0 || model == "default"@ {
        None
    } else {
        Some(model)
    }
}

/// The name of the agent configuration that `model` selects.
pub fn agent_config_name(model: &str) -> (r: Option<String>)
    ensures
        opt_text(r) == config_name(model@),
{
    let name = String::from_str(model);
    let default_name = String::from_str("default");
    if model.is_empty() || name == default_name {
        None
    } else {
        Some(name)
    }
}

/// What the client is told when the agent for `model` cannot be created. A
/// configuration that does not exist is a missing target; any other fault of
/// the configuration is the request's; everything else is the server's.
pub open spec fn creation_failure(model: Seq<char>, error: AgentErrorView) -> ErrorResponseView {
    match error {
        AgentErrorView::ConfigurationError(msg) => if contains_seq(msg, "does not exist"@) {
            ErrorResponseView {
                kind: ErrorKind::NotFound,
                message: "Agent '"@ + model + "' not found"@,
            }
        } else {
            ErrorResponseView { kind: ErrorKind::InvalidRequest, message: msg }
        },
        _ => ErrorResponseView {
            kind: ErrorKind::InternalError,
            message: "Failed to create agent: "@ + error_description(error),
        },
    }
}

/// Maps the failure to create the agent for `model` to the response for the
/// client.
pub fn agent_creation_error(model: &str, error: AgentError) -> (r: ErrorResponse)
    ensures
        r@ == creation_failure(model@, error@),
{
    match error {
        AgentError::ConfigurationError(msg) => {
            if contains_text(msg.as_str(), "does not exist") {
                ErrorResponse::not_found(
                    String::from_str("Agent '").concat(model).concat("' not found"),
                )
            } else {
                ErrorResponse::invalid_request(msg)
            }
        },
        other => {
            let description = describe_error(&other);
            ErrorResponse::internal_error(
                String::from_str("Failed to create agent: ").concat(description.as_str()),
            )
        },
    }
}

/// Settles the attempt to create the agent for `model`: the agent where it
/// was created, and else the response that tells the client why it was not.
pub fn create_agent_from_model<B>(model: &str, created: Result<B, AgentError>) -> (r: Result<
    B,
    ErrorResponse,
>)
    ensures
        match created {
            Ok(agent) => r == Ok::<B, ErrorResponse>(agent),
            Err(error) => r is Err && r->Err_0@ == creation_failure(model@, error@),
        },
{
    match created {
        Ok(agent) => Ok(agent),
        Err(error) => Err(agent_creation_error(model, error)),
    }
}

} // verus!
