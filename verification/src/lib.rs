//! Conversational memory for a persistent chat agent.
//!
//! Each user has a chat context: a branch store that keeps the messages of
//! the conversation, with the alternative versions of each, and the builder
//! of the system prompt. From a context the library assembles the bounded
//! window of messages that a completion is asked with, and it holds the
//! rules of a completion turn and of what is summarised into long-term
//! memory. The calls to the model, the embedder, the vector store and the
//! chat platform are left to the caller.
//!
//! - [`message`]: messages, and slots with their variants and cursor
//! - [`branch`]: the branch store
//! - [`prompt`]: the builder of the system prompt and its rendering
//! - [`clock`]: spans of time in words, and the clock in a time zone
//! - [`context`]: the chat context and the assembly of the window
//! - [`agent`]: the rules of a completion turn and of summaries
//! - [`handler`]: the sessions of all users
//! - [`text`]: substitution, numerals and joining of texts

pub mod agent;
pub mod branch;
pub mod clock;
pub mod context;
pub mod handler;
pub mod message;
pub mod prompt;
pub mod text;
