//! The policy that a repository is held to.

use vstd::prelude::*;
use crate::error::ConfigError;
use crate::sensitive::{default_pattern_texts, default_patterns};
use crate::text::texts;

verus! {

/// How branches must be named.
#[derive(Debug, Clone)]
pub struct BranchConfig {
    /// A regular expression that the current branch name must match.
    pub pattern: String,
}

/// How commit subjects must be written.
#[derive(Debug, Clone)]
pub struct CommitConfig {
    /// The name of the convention that subjects are checked against.
    pub convention: String,
}

/// Which states of the repository are demanded.
#[derive(Debug, Clone, Copy)]
pub struct CheckConfig {
    pub require_clean_worktree: bool,
    pub require_upstream: bool,
}

/// Which staged files count as secrets.
#[derive(Debug, Clone)]
pub struct SensitiveConfig {
    /// Globs; a list given here replaces the default one.
    pub patterns: Vec<String>,
}

/// What the generated hooks enforce.
#[derive(Debug, Clone)]
pub struct HooksConfig {
    /// Branches to which a direct push is refused.
    pub protected_branches: Vec<String>,
}

/// The whole policy.
#[derive(Debug, Clone)]
pub struct Config {
    pub branches: BranchConfig,
    pub commits: CommitConfig,
    pub checks: CheckConfig,
    pub sensitive: SensitiveConfig,
    pub hooks: HooksConfig,
}

/// The branch pattern of the default policy.
pub open spec fn default_branch_pattern() -> Seq<char> {
    "^(feat|fix|chore|docs|refactor)/[a-z0-9-]+$"@
}

/// The branches that are protected when the configuration names none.
pub open spec fn default_protected_branches() -> Seq<Seq<char>> {
    seq!["main"@, "master"@]
}

impl Default for SensitiveConfig {
    fn default() -> (config: Self)
        ensures
            texts(config.patterns@) == default_pattern_texts(),
    {
        SensitiveConfig { patterns: default_patterns() }
    }
}

impl Default for HooksConfig {
    fn default() -> (config: Self)
        ensures
            texts(config.protected_branches@) == default_protected_branches(),
    {
        let mut protected_branches: Vec<String> = Vec::new();
        protected_branches.push("main".to_owned());
        protected_branches.push("master".to_owned());
        HooksConfig { protected_branches }
    }
}

/// The policy written out when a repository is first set up: conventional
/// commits, a clean worktree and an upstream demanded, the default secrets
/// and protected branches.
pub fn default_config() -> (config: Config)
    ensures
        config.branches.pattern@ == default_branch_pattern(),
        config.commits.convention@ == "conventional"@,
        config.checks.require_clean_worktree,
        config.checks.require_upstream,
        texts(config.sensitive.patterns@) == default_pattern_texts(),
        texts(config.hooks.protected_branches@) == default_protected_branches(),
{
    Config {
        branches: BranchConfig { pattern: "^(feat|fix|chore|docs|refactor)/[a-z0-9-]+$".to_owned() },
        commits: CommitConfig { convention: "conventional".to_owned() },
        checks: CheckConfig { require_clean_worktree: true, require_upstream: true },
        sensitive: SensitiveConfig::default(),
        hooks: HooksConfig::default(),
    }
}

/// What the note in the scripts directory says.
pub fn scripts_readme() -> (text: String)
    ensures
        text@ == "# git-sherpa scripts\n\nAdd custom hooks or scripts for your repo here.\n"@,
{
    "# git-sherpa scripts\n\nAdd custom hooks or scripts for your repo here.\n".to_owned()
}

/// What setting up a repository writes.
#[derive(Debug, Clone)]
pub struct InitPlan {
    /// The policy to write to the configuration's path.
    pub config: Config,
    /// The directory for the user's own scripts.
    pub scripts_dir: String,
    /// The note to put into that directory.
    pub readme: String,
}

/// Decides what setting up a repository writes. A configuration that is
/// already there is never written over: its path is refused.
pub fn init(config_path: &str, exists: bool) -> (plan: Result<InitPlan, ConfigError>)
    ensures
        match plan {
            Ok(p) => {
                &&& !exists
                &&& p.config.branches.pattern@ == default_branch_pattern()
                &&& p.config.commits.convention@ == "conventional"@
                &&& p.config.checks.require_clean_worktree
                &&& p.config.checks.require_upstream
                &&& texts(p.config.sensitive.patterns@) == default_pattern_texts()
                &&& texts(p.config.hooks.protected_branches@) == default_protected_branches()
                &&& p.scripts_dir@ == ".gitsherpa"@
                &&& p.readme@ == "# git-sherpa scripts\n\nAdd custom hooks or scripts for your repo here.\n"@
            },
            Err(e) => exists && (e matches ConfigError::AlreadyExists { path } && path@
                == config_path@),
        },
{
    if exists {
        return Err(ConfigError::AlreadyExists { path: config_path.to_owned() });
    }
    Ok(InitPlan { config: default_config(), scripts_dir: ".gitsherpa".to_owned(), readme: scripts_readme() })
}

} // verus!
