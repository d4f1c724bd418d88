//! Verified core of a chat-integration bot: event classification, keep-alive
//! bookkeeping, command routing and the per-command argument grammars, with the
//! network, rendering and storage work left to an unverified shell around it.

pub mod bytes;
pub mod command;
pub mod events;
pub mod graph;
pub mod handlers;
pub mod json;
pub mod numbers;
pub mod supervisor;
pub mod text;
