//! Core of a chat-driven poll bot: a command parser, a command registry,
//! a dispatch step, and the poll/voting domain state machine, with the
//! lifecycle, uniqueness and referential-integrity rules proved.
//!
//! The chat transport and the persistence engine are collaborators outside
//! this crate: the library turns one line of chat text and the current
//! domain state into the next domain state and a structured reply.

pub mod dispatch;
pub mod engine;
pub mod laws;
pub mod models;
pub mod parser;
pub mod registry;
pub mod text;
