//! Turns a staged diff into candidate commit messages and drives the
//! pick-and-commit loop.
//!
//! Everything here is pure: the caller runs the version-control tool, talks
//! to the completion service and shows the prompt, and hands the outcomes to
//! this library, which decides what happens next.
#![allow(unused_imports)]

pub mod args;
pub mod cli;
pub mod commit;
pub mod completion;
pub mod config;
pub mod diff;
pub mod error;
pub mod model;
pub mod pipeline;
pub mod prompt;
pub mod selection;
pub mod settings;
pub mod text;

pub use args::Args;
pub use cli::Cli;
pub use commit::{commit_arguments, commit_result};
pub use completion::{candidates, read_reply, request, CompletionRequest, Reply};
pub use config::{
    default_context_prefix, default_ignore_space, default_suggestions, default_tokens,
    settings_path, Config, FileConfig,
};
pub use diff::{diff_arguments, read_diff};
pub use error::{ConfigFault, Error};
pub use model::Model;
pub use pipeline::{Action, Event, Pipeline, State};
pub use prompt::{Message, Role};
pub use selection::{label, labels};
pub use settings::resolve;
