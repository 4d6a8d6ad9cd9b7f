//! Decision logic of a GitHub pull-request review bot.
//!
//! The library holds everything the bot decides or computes: configuration
//! parsing with defaults, event classification, trigger-phrase matching,
//! tracking-comment selection, file filtering, URL construction, prompt
//! rendering and response assembly. The surrounding binary performs the
//! network calls and feeds their results back in as plain values.

pub mod handler;
pub mod prompt;
pub mod settings;
pub mod text;
pub mod utils;
