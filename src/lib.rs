//! Protocol engine and tool-execution pipeline of an interactive feedback
//! server: line-delimited JSON-RPC requests in, one response per request out,
//! and a single `interactive_feedback` tool that waits for a human reply.
//!
//! - `json`: the JSON value model and its compact text.
//! - `protocol`: requests, responses and their decoding and encoding.
//! - `server`: the tool registry and the dispatch of one message.
//! - `feedback_tool`: the tool's schema, input check and the steps of a call,
//!   as a state machine whose effects (files, the collector process) the
//!   caller carries out.
//! - `storage`: conversation sessions, their documents, and the idempotent
//!   set-up of the project's history folder.
//! - `text`, `errors`, `validation`, `models`, `process`: supporting pieces.

pub mod json;
pub mod errors;
pub mod text;
pub mod feedback_tool;
pub mod storage;
pub mod protocol;
pub mod server;
pub mod models;
pub mod validation;
pub mod process;
