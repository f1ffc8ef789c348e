//! Derives the local directory for a clone of a git remote: parses the remote
//! reference, resolves the layered user configuration for its host, builds the
//! destination path and decides what each run of git leads to.

pub mod configuration;
pub mod errors;
pub mod git;
pub mod output_style;
pub mod repository;
pub mod target;
pub mod text;
pub mod user_configuration;

pub use crate::configuration::Configuration;
pub use crate::errors::{GitCommand, GitFailure, JCloneError, JCloneResult, ParseError};
pub use crate::git::{ExitOutcome, Git, Invocation, Step};
pub use crate::output_style::OutputStyle;
pub use crate::repository::Repository;
pub use crate::target::target_dir;
pub use crate::user_configuration::{UserConfiguration, UserHostConfiguration};
