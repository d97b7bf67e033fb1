//! Choosing and talking to a text generator, and the texts sent to it.
pub mod config;
pub mod context;
pub mod prompt;
