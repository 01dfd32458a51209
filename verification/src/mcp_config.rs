//! Configuration of MCP tool servers: how a server is reached, and when the
//! token that opens it has to be renewed.

use vstd::prelude::*;
use crate::chat::{opt_text, seconds_of};
use crate::platform::unix_timestamp;
use crate::session::texts_view;

verus! {

/// An OAuth access token.
#[derive(Debug, Clone)]
pub struct OAuthToken {
    pub access_token: String,
    /// Unix timestamp (seconds since epoch) when the token expires
    pub expires_at: Option<i64>,
}

/// How an MCP server is reached.
#[derive(Debug, Clone)]
pub enum McpConfig {
    Stdio { command: String, args: Vec<String> },
    Http { url: String, auth: Option<OAuthToken> },
    Sse { url: String },
}

/// A client that talks to a child process over its standard streams.
#[derive(Debug, Clone)]
pub struct StdioClient {
    pub command: String,
    pub args: Vec<String>,
}

/// A client that talks HTTP, with a bearer token where the server asks for
/// one.
#[derive(Debug, Clone)]
pub struct HttpClient {
    pub url: String,
    pub bearer_token: Option<String>,
}

/// A client that listens to server-sent events.
#[derive(Debug, Clone)]
pub struct SseClient {
    pub url: String,
}

/// A client for one MCP server, by transport.
#[derive(Debug, Clone)]
pub enum McpClient {
    Stdio(StdioClient),
    Http(HttpClient),
    Sse(SseClient),
}

/// The safety margin, in seconds, within which a token counts as expired
/// before its time.
pub const EXPIRY_MARGIN_SECS: i64 = 60;

impl OAuthToken {
    /// Whether the token is expired at `now`, in seconds since the Unix
    /// epoch: it has an expiry time and that time is no more than the
    /// safety margin away. A token without an expiry time never expires.
    pub open spec fn expired_at(&self, now: int) -> bool {
        match self.expires_at {
            Some(expires_at) => expires_at <= now + EXPIRY_MARGIN_SECS,
            None => false,
        }
    }

    /// Tells whether the token is expired, or will expire within the next 60
    /// seconds, at the time `now`.
    pub fn is_expired_at(&self, now: i64) -> (r: bool)
        ensures
            r == self.expired_at(now as int),
    {
        match self.expires_at {
            Some(expires_at) => {
                if now > i64::MAX - EXPIRY_MARGIN_SECS {
                    true
                } else {
                    expires_at <= now + EXPIRY_MARGIN_SECS
                }
            },
            None => false,
        }
    }

    /// Tells whether the token is expired, or will expire within the next 60
    /// seconds, by the wall clock. A token without an expiry time is taken
    /// to be valid whatever the clock says. A clock that reads a time before
    /// the Unix epoch counts as reading the epoch.
    pub fn is_expired(&self) -> (r: bool)
        ensures
            self.expires_at is None ==> !r,
            exists|now: u64| r == #[trigger] self.expired_by(now),
    {
        let now = seconds_of(unix_timestamp());
        let r = self.is_expired_by(now);
        assert(r == self.expired_by(now));
        r
    }

    /// Whether the token is expired when the clock reads `now` seconds
    /// since the Unix epoch.
    pub open spec fn expired_by(&self, now: u64) -> bool {
        self.expired_at(now as int)
    }

    /// Tells whether the token is expired, or will expire within the next 60
    /// seconds, when the clock reads `now` seconds since the Unix epoch.
    pub fn is_expired_by(&self, now: u64) -> (r: bool)
        ensures
            r == self.expired_by(now),
    {
        if now > 0x7FFF_FFFF_FFFF_FFFFu64 - 60 {
            self.expires_at.is_some()
        } else {
            self.is_expired_at(now as i64)
        }
    }
}

/// The client that `config` asks for: the transport of the configuration,
/// with its command and arguments or its address, and for HTTP the access
/// token of the configured authorisation as bearer token.
pub fn create_mcp_client(config: McpConfig) -> (client: McpClient)
    ensures
        match config {
            McpConfig::Stdio { command, args } => client matches McpClient::Stdio(c) && c.command@
                == command@ && texts_view(c.args@) == texts_view(args@),
            McpConfig::Http { url, auth } => client matches McpClient::Http(c) && c.url@ == url@
                && opt_text(c.bearer_token) == (match auth {
                Some(token) => Some(token.access_token@),
                None => None,
            }),
            McpConfig::Sse { url } => client matches McpClient::Sse(c) && c.url@ == url@,
        },
{
    match config {
        McpConfig::Stdio { command, args } => McpClient::Stdio(StdioClient { command, args }),
        McpConfig::Http { url, auth } => {
            let bearer_token = match auth {
                Some(token) => Some(token.access_token),
                None => None,
            };
            McpClient::Http(HttpClient { url, bearer_token })
        },
        McpConfig::Sse { url } => McpClient::Sse(SseClient { url }),
    }
}

} // verus!
