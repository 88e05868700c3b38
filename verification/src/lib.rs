//! Core logic of a small chat bot.
//!
//! The bot registers a fixed set of slash commands with a chat platform and
//! answers each invocation with exactly one reply payload: either a static
//! informational embed, or the outcome of a weather lookup formatted into an
//! embed. The platform gateway, the HTTP transport and the process bootstrap
//! live outside this crate; this crate holds the command set, the dispatcher,
//! the interpretation of the weather provider's response, and the exact text
//! of every reply.

pub mod commands;
pub mod embed;
mod json;
pub mod text;
pub mod weather;
