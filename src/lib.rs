//! Conversation memory for a chat agent: branching turns, an ordered
//! short-term store with eviction, context-window assembly and the
//! per-turn decisions of the completion loop.

pub mod branch;
pub mod buttons;
pub mod context;
pub mod engine;
pub mod identifier;
pub mod memory;
pub mod message;
pub mod prompt;
pub mod reply;
pub mod settings;
pub mod store;
pub mod template;
pub mod text;
