//! Prompt construction for chat models: a role-tagged conversation is folded
//! into the single text a model family expects, with each family's literal
//! turn markers, and search results are prepared for summarisation.

pub mod chain;
pub mod cohere;
pub mod count;
pub mod deepseek;
pub mod error;
pub mod grammar;
pub mod headers;
pub mod json;
pub mod laws;
pub mod markers;
pub mod message;
pub mod pattern;
pub mod prompt;
pub mod request;
pub mod search;
pub mod text;
pub mod tokens;
pub mod tool;
