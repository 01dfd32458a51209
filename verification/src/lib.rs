//! Session and streaming core for serving a long-running agent run to HTTP
//! clients: the event vocabulary, the shared event stream, the request
//! guard, the disconnection-aware adapter, and the per-protocol formatters.

pub mod agent;
pub mod chat;
pub mod completion;
pub mod disconnect;
pub mod event;
pub mod event_stream;
pub mod formatter;
pub mod lifecycle;
pub mod mcp_config;
mod platform;
pub mod session;
pub mod simple;
pub mod streaming;
pub mod text;
