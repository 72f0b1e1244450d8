//! Conversation memory and streamed replies for a chat assistant.
//!
//! The crate keeps a per-conversation history of turns, chooses under a token
//! budget which of them accompany a new request, and decides, event by event,
//! how a reply that arrives in fragments is written to a rate-limited,
//! size-limited message sink.

pub mod turn;
pub mod store;
pub mod tokenizer;
pub mod window;
pub mod text;
pub mod render;
pub mod trace;
pub mod instructions;
pub mod preamble;
pub mod config;
pub mod assembler;
pub mod dispatch;
pub mod commands;
