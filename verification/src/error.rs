//! What can go wrong while a policy is applied.

use vstd::prelude::*;
use vstd::string::StringExecFns;

verus! {

/// A fault of the configuration. Each carries the text that was refused.
#[derive(Debug, Clone)]
pub enum ConfigError {
    /// The branch pattern is no regular expression that can be used.
    InvalidBranchPattern { pattern: String },
    /// The commit convention is not one that is known.
    UnsupportedConvention { name: String },
    /// A configuration was to be written where one already is.
    AlreadyExists { path: String },
}

/// A fault of the repository or of the tool that reads it.
#[derive(Debug, Clone)]
pub enum RepositoryError {
    /// The branch name could not be read: no repository here.
    NoBranch,
    /// The history could not be read.
    NoLog,
    /// The state of the worktree could not be read.
    NoStatus,
    /// The repository's own directory could not be found.
    NoGitDir,
    /// The staged files could not be listed.
    NoStagedFiles,
    /// The branch could not be pushed, so its upstream is not set.
    PushFailed { branch: String },
}

impl ConfigError {
    /// The text that was refused.
    pub open spec fn offending(self) -> Seq<char> {
        match self {
            ConfigError::InvalidBranchPattern { pattern } => pattern@,
            ConfigError::UnsupportedConvention { name } => name@,
            ConfigError::AlreadyExists { path } => path@,
        }
    }

    /// What is said before the refused text.
    pub open spec fn lead(self) -> Seq<char> {
        match self {
            ConfigError::InvalidBranchPattern { .. } => "invalid branch regex "@,
            ConfigError::UnsupportedConvention { .. } => "Unsupported commit convention: "@,
            ConfigError::AlreadyExists { .. } => "Config already exists at "@,
        }
    }

    /// The message for this fault; it ends with the text that was refused.
    pub fn message(&self) -> (text: String)
        ensures
            text@ == self.lead() + self.offending(),
    {
        match self {
            ConfigError::InvalidBranchPattern { pattern } => {
                "invalid branch regex ".to_owned().concat(pattern.as_str())
            },
            ConfigError::UnsupportedConvention { name } => {
                "Unsupported commit convention: ".to_owned().concat(name.as_str())
            },
            ConfigError::AlreadyExists { path } => {
                "Config already exists at ".to_owned().concat(path.as_str())
            },
        }
    }
}

impl RepositoryError {
    /// The message for this fault.
    pub open spec fn message_text(self) -> Seq<char> {
        match self {
            RepositoryError::NoBranch => "Not a git repository or failed to get branch name"@,
            RepositoryError::NoLog => "Failed to read git log"@,
            RepositoryError::NoStatus => "Failed to read git status"@,
            RepositoryError::NoGitDir => "Not a git repository"@,
            RepositoryError::NoStagedFiles => "Failed to list staged files"@,
            RepositoryError::PushFailed { branch } => "Failed to push and set upstream for branch '"@
                + branch@ + "'"@,
        }
    }

    /// The message for this fault.
    pub fn message(&self) -> (text: String)
        ensures
            text@ == self.message_text(),
    {
        match self {
            RepositoryError::NoBranch => "Not a git repository or failed to get branch name".to_owned(),
            RepositoryError::NoLog => "Failed to read git log".to_owned(),
            RepositoryError::NoStatus => "Failed to read git status".to_owned(),
            RepositoryError::NoGitDir => "Not a git repository".to_owned(),
            RepositoryError::NoStagedFiles => "Failed to list staged files".to_owned(),
            RepositoryError::PushFailed { branch } => {
                "Failed to push and set upstream for branch '".to_owned().concat(
                    branch.as_str(),
                ).concat("'")
            },
        }
    }
}

} // verus!
