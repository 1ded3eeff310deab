//! Verified core of the warden code-quality toolkit: the roadmap command
//! language and its text editing, the task store, the apply-protocol
//! validator, configuration defaults and the prompt texts.
pub mod text;
pub mod pattern;
pub mod error;
pub mod roadmap;
pub mod roadmap_v2;
pub mod apply;
pub mod project;
pub mod config;
pub mod constants;
pub mod discovery;
pub mod lang;
pub mod prompt;
pub mod detection;
pub mod checks;
pub mod analysis;
pub mod syntax;
pub mod clipboard;
pub mod clean;
pub mod pack;
pub mod knit;
pub mod cli;
