//! Legacy roadmap (v1): a Markdown roadmap edited by line-oriented commands.
pub mod types;
pub mod str_utils;
pub mod cmd_parser;
pub mod cmd_helpers;
pub mod cmd_handlers;
pub mod cmd_runner;
pub mod parser;
pub mod diff;
pub mod audit;
pub mod cli;
pub mod roundtrip;
pub mod stats;
pub mod undo;
