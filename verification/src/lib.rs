//! A kanban task tracker's conversational agent bridge.
//!
//! The heart of the crate is the bridge between a user's chat message and an
//! external command-line AI agent process: deciding whether the agent can
//! resume a prior session, composing the prompt it is fed, decoding its
//! line-oriented streaming protocol into a typed event feed, and committing
//! the final assistant message to the conversation log exactly once.
//!
//! Everything that computes or decides lives here, verified; process
//! spawning, HTTP and storage calls are left to the surrounding application.

pub mod dooray;
pub mod laws;
pub mod mentions;
pub mod messages;
pub mod prompt;
pub mod protocol;
pub mod publisher;
pub mod session;
pub mod tasks;
pub mod text;
pub mod wire;
