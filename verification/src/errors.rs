//! What can go wrong in a run, and the text shown to the user for it.

use vstd::prelude::*;
use vstd::string::StringExecFns;

verus! {

/// Why a remote reference was not understood.
#[derive(Debug, PartialEq, Eq, Structural, Clone, Copy)]
pub enum ParseError {
    /// There is no `:` to split at, or nothing stands before or behind it.
    UnexpectedFormat,
    /// What stands before the `:` holds a `/`, as a path on this machine would.
    LooksLikeLocalPath,
}

/// The two runs of git that a clone is made of.
#[derive(Debug, PartialEq, Eq, Structural, Clone, Copy)]
pub enum GitCommand {
    /// Listing the remote's heads, to see whether the remote can be reached.
    LsRemote,
    /// The clone itself.
    Clone,
}

/// How a run of git that did start let the user down.
#[derive(Debug, PartialEq, Eq, Structural, Clone, Copy)]
pub enum GitFailure {
    /// The remote did not answer the listing of its heads.
    RemoteUnreachable,
    /// The clone ended with a status other than zero.
    NonZeroExit,
}

/// Everything that ends a run early.
#[derive(Debug, PartialEq)]
pub enum JCloneError {
    /// A failure with nothing but a text.
    Generic(String),
    /// A variable of the environment could not be read; the text says why.
    Environment(String),
    /// The configuration file at the path could not be read; the text says why.
    ConfigurationFileLoad(String, String),
    /// The configuration file at the path is not a valid configuration.
    ConfigurationParse(String, String),
    /// Git could not be started at all.
    GitSystem { executable: String, command: GitCommand, source: String },
    /// Git ran and failed.
    GitUser { command: GitCommand, message: GitFailure },
    /// The remote reference was not understood.
    RepositoryParse(ParseError),
}

pub type JCloneResult<T> = Result<T, JCloneError>;

impl ParseError {
    /// The text shown for this failure.
    pub open spec fn spec_message(self) -> Seq<char> {
        match self {
            ParseError::UnexpectedFormat => "unexpected format"@,
            ParseError::LooksLikeLocalPath => "local paths are not supported"@,
        }
    }

    /// The text shown for this failure.
    pub fn message(self) -> (text: &'static str)
        ensures
            text@ == self.spec_message(),
    {
        match self {
            ParseError::UnexpectedFormat => "unexpected format",
            ParseError::LooksLikeLocalPath => "local paths are not supported",
        }
    }
}

impl GitCommand {
    /// The subcommand as it is handed to git.
    pub open spec fn spec_name(self) -> Seq<char> {
        match self {
            GitCommand::LsRemote => "ls-remote"@,
            GitCommand::Clone => "clone"@,
        }
    }

    /// The subcommand as it is handed to git.
    pub fn name(self) -> (text: &'static str)
        ensures
            text@ == self.spec_name(),
    {
        match self {
            GitCommand::LsRemote => "ls-remote",
            GitCommand::Clone => "clone",
        }
    }
}

impl GitFailure {
    /// The text shown for this failure.
    pub open spec fn spec_message(self) -> Seq<char> {
        match self {
            GitFailure::RemoteUnreachable => "couldn't access repository"@,
            GitFailure::NonZeroExit => "git clone returned non-zero status code"@,
        }
    }

    /// The text shown for this failure.
    pub fn message(self) -> (text: &'static str)
        ensures
            text@ == self.spec_message(),
    {
        match self {
            GitFailure::RemoteUnreachable => "couldn't access repository",
            GitFailure::NonZeroExit => "git clone returned non-zero status code",
        }
    }
}

impl JCloneError {
    /// The line shown to the user for this error.
    pub open spec fn spec_message(self) -> Seq<char> {
        match self {
            JCloneError::Generic(text) => "Error: "@ + text@,
            JCloneError::Environment(text) => "Error: "@ + text@,
            JCloneError::ConfigurationFileLoad(path, text) => "Couldn't load configuration from "@
                + path@ + ": "@ + text@,
            JCloneError::ConfigurationParse(path, text) => "Couldn't parse configuration from: "@
                + path@ + ":\n"@ + text@,
            JCloneError::GitSystem { executable, command, source } => executable@ + " "@
                + command.spec_name() + ": "@ + source@,
            JCloneError::GitUser { command, message } => "git "@ + command.spec_name() + ": "@
                + message.spec_message(),
            JCloneError::RepositoryParse(kind) => "Couldn't parse repository: "@
                + kind.spec_message(),
        }
    }

    /// The line shown to the user for this error.
    pub fn message(&self) -> (text: String)
        ensures
            text@ == self.spec_message(),
    {
        match self {
            JCloneError::Generic(text) => String::from_str("Error: ").concat(text.as_str()),
            JCloneError::Environment(text) => String::from_str("Error: ").concat(text.as_str()),
            JCloneError::ConfigurationFileLoad(path, text) => String::from_str(
                "Couldn't load configuration from ",
            ).concat(path.as_str()).concat(": ").concat(text.as_str()),
            JCloneError::ConfigurationParse(path, text) => String::from_str(
                "Couldn't parse configuration from: ",
            ).concat(path.as_str()).concat(":\n").concat(text.as_str()),
            JCloneError::GitSystem { executable, command, source } => executable.clone().concat(
                " ",
            ).concat(command.name()).concat(": ").concat(source.as_str()),
            JCloneError::GitUser { command, message } => String::from_str("git ").concat(
                command.name(),
            ).concat(": ").concat(message.message()),
            JCloneError::RepositoryParse(kind) => String::from_str(
                "Couldn't parse repository: ",
            ).concat(kind.message()),
        }
    }

    /// The line that tells the user of this error.
    pub open spec fn spec_failure_line(self) -> Seq<char> {
        "❌ "@ + self.spec_message()
    }

    /// The line that tells the user of this error.
    pub fn failure_line(&self) -> (line: String)
        ensures
            line@ == self.spec_failure_line(),
    {
        String::from_str("❌ ").concat(self.message().as_str())
    }
}

} // verus!
