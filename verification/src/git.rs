//! The version-control tool seen from outside: which commands are run, and
//! what their outcome means. Running them is the caller's part.

use vstd::prelude::*;
use vstd::string::StringExecFns;
use crate::error::RepositoryError;
use crate::text::{
    chars_of, decimal, decimal_text, lines, lines_of, split_at_first, split_once, texts, trim,
    trimmed,
};

verus! {

/// What a command left behind: whether it ended well, and what it wrote to
/// its standard output.
#[derive(Debug, Clone)]
pub struct CommandOutput {
    pub success: bool,
    pub stdout: String,
}

/// A question to the repository, or the one action on it.
#[derive(Debug, Clone)]
pub enum GitCommand {
    CurrentBranch,
    RecentCommits { limit: usize },
    WorktreeStatus,
    Upstream,
    GitDir,
    StagedFiles,
    PushSetUpstream { branch: String },
}

/// What stands between hash and subject in a line of the history.
pub open spec fn log_separator() -> Seq<char> {
    ":::"@
}

impl GitCommand {
    /// The arguments with which the tool is run for this command.
    pub open spec fn arg_texts(self) -> Seq<Seq<char>> {
        match self {
            GitCommand::CurrentBranch => seq!["rev-parse"@, "--abbrev-ref"@, "HEAD"@],
            GitCommand::RecentCommits { limit } => seq![
                "log"@,
                "-n"@ + decimal_text(limit as nat),
                "--pretty=format:%H:::%s"@,
            ],
            GitCommand::WorktreeStatus => seq!["status"@, "--porcelain"@],
            GitCommand::Upstream => seq![
                "rev-parse"@,
                "--abbrev-ref"@,
                "--symbolic-full-name"@,
                "@{u}"@,
            ],
            GitCommand::GitDir => seq!["rev-parse"@, "--git-dir"@],
            GitCommand::StagedFiles => seq!["diff"@, "--cached"@, "--name-only"@],
            GitCommand::PushSetUpstream { branch } => seq!["push"@, "-u"@, "origin"@, branch@],
        }
    }

    /// The arguments with which the tool is run for this command.
    pub fn args(&self) -> (args: Vec<String>)
        ensures
            texts(args@) == self.arg_texts(),
    {
        let mut args: Vec<String> = Vec::new();
        match self {
            GitCommand::CurrentBranch => {
                args.push("rev-parse".to_owned());
                args.push("--abbrev-ref".to_owned());
                args.push("HEAD".to_owned());
            },
            GitCommand::RecentCommits { limit } => {
                args.push("log".to_owned());
                args.push("-n".to_owned().concat(decimal(*limit).as_str()));
                args.push("--pretty=format:%H:::%s".to_owned());
            },
            GitCommand::WorktreeStatus => {
                args.push("status".to_owned());
                args.push("--porcelain".to_owned());
            },
            GitCommand::Upstream => {
                args.push("rev-parse".to_owned());
                args.push("--abbrev-ref".to_owned());
                args.push("--symbolic-full-name".to_owned());
                args.push("@{u}".to_owned());
            },
            GitCommand::GitDir => {
                args.push("rev-parse".to_owned());
                args.push("--git-dir".to_owned());
            },
            GitCommand::StagedFiles => {
                args.push("diff".to_owned());
                args.push("--cached".to_owned());
                args.push("--name-only".to_owned());
            },
            GitCommand::PushSetUpstream { branch } => {
                args.push("push".to_owned());
                args.push("-u".to_owned());
                args.push("origin".to_owned());
                args.push(branch.clone());
            },
        }
        args
    }
}

/// The name of the current branch: the output without the white space around
/// it. A command that failed means that there is no repository.
pub fn current_branch(output: &CommandOutput) -> (name: Result<String, RepositoryError>)
    ensures
        match name {
            Ok(n) => output.success && n@ == trimmed(output.stdout@),
            Err(e) => !output.success && e is NoBranch,
        },
{
    if !output.success {
        return Err(RepositoryError::NoBranch);
    }
    Ok(trim(output.stdout.as_str()))
}

/// Whether the worktree is clean: the status lists nothing.
pub fn worktree_clean(output: &CommandOutput) -> (clean: Result<bool, RepositoryError>)
    ensures
        match clean {
            Ok(c) => output.success && c == (trimmed(output.stdout@).len() == 0),
            Err(e) => !output.success && e is NoStatus,
        },
{
    if !output.success {
        return Err(RepositoryError::NoStatus);
    }
    let left = trim(output.stdout.as_str());
    Ok(left.as_str().is_empty())
}

/// Whether the branch has an upstream. The command fails where there is
/// none: that is an answer, not a fault.
pub fn has_upstream(output: &CommandOutput) -> (has: bool)
    ensures
        has == output.success,
{
    output.success
}

/// Hash and subject of a line of the history, if the line holds the
/// separator: the hash is what stands before its first occurrence, the
/// subject what stands after it.
pub open spec fn parsed_commit(line: Seq<char>) -> Option<(Seq<char>, Seq<char>)> {
    split_at_first(line, log_separator())
}

/// The commits that the history lists, in its order; a line without the
/// separator is passed over.
pub open spec fn parsed_log(stdout: Seq<char>) -> Seq<(Seq<char>, Seq<char>)> {
    lines_of(stdout).filter_map(|line: Seq<char>| parsed_commit(line))
}

/// Hash and subject of each commit, as plain values.
pub open spec fn commit_texts(commits: Seq<(String, String)>) -> Seq<(Seq<char>, Seq<char>)> {
    commits.map_values(|c: (String, String)| (c.0@, c.1@))
}

/// The recent commits, most recent first, as the history lists them.
pub fn recent_commits(output: &CommandOutput) -> (commits: Result<
    Vec<(String, String)>,
    RepositoryError,
>)
    ensures
        match commits {
            Ok(list) => output.success && commit_texts(list@) == parsed_log(output.stdout@),
            Err(e) => !output.success && e is NoLog,
        },
{
    if !output.success {
        return Err(RepositoryError::NoLog);
    }
    let all = lines(output.stdout.as_str());
    let ghost parse = |line: Seq<char>| parsed_commit(line);
    let mut list: Vec<(String, String)> = Vec::new();
    let mut i: usize = 0;
    while i < all.len()
        invariant
            i <= all.len(),
            parse == (|line: Seq<char>| parsed_commit(line)),
            commit_texts(list@) == texts(all@).take(i as int).filter_map(parse),
        decreases all.len() - i,
    {
        proof {
            let upto = texts(all@).take(i + 1);
            assert(upto.drop_last() =~= texts(all@).take(i as int));
        }
        match split_once(all[i].as_str(), ":::") {
            Some(parts) => {
                list.push(parts);
            },
            None => {},
        }
        i += 1;
    }
    assert(texts(all@).take(all.len() as int) =~= texts(all@));
    Ok(list)
}

/// The staged paths: the lines of the output.
pub fn staged_files(output: &CommandOutput) -> (paths: Result<Vec<String>, RepositoryError>)
    ensures
        match paths {
            Ok(list) => output.success && texts(list@) == lines_of(output.stdout@),
            Err(e) => !output.success && e is NoStagedFiles,
        },
{
    if !output.success {
        return Err(RepositoryError::NoStagedFiles);
    }
    Ok(lines(output.stdout.as_str()))
}

/// `name` below the directory `dir`: the two with one `/` between them,
/// unless `dir` is empty or ends with one.
pub open spec fn path_below(dir: Seq<char>, name: Seq<char>) -> Seq<char> {
    if dir.len() == 0 || dir.last() == '/' {
        dir + name
    } else {
        dir + seq!['/'] + name
    }
}

/// The path of `name` below the directory `dir`.
pub fn join_path(dir: &str, name: &str) -> (path: String)
    ensures
        path@ == path_below(dir@, name@),
{
    let chars = chars_of(dir);
    let mut path = dir.to_owned();
    if chars.len() > 0 && chars[chars.len() - 1] != '/' {
        proof {
            reveal_strlit("/");
        }
        path.append("/");
    }
    path.append(name);
    path
}

/// The hooks directory: `hooks` below the repository's own directory, which
/// is the output without the white space around it.
pub fn hooks_dir(output: &CommandOutput) -> (dir: Result<String, RepositoryError>)
    ensures
        match dir {
            Ok(d) => output.success && d@ == path_below(trimmed(output.stdout@), "hooks"@),
            Err(e) => !output.success && e is NoGitDir,
        },
{
    if !output.success {
        return Err(RepositoryError::NoGitDir);
    }
    let git_dir = trim(output.stdout.as_str());
    Ok(join_path(git_dir.as_str(), "hooks"))
}

/// What became of pushing `branch` and setting its upstream.
pub fn push_set_upstream(branch: &str, output: &CommandOutput) -> (done: Result<(), RepositoryError>)
    ensures
        match done {
            Ok(_) => output.success,
            Err(e) => !output.success && (e matches RepositoryError::PushFailed { branch: b } && b@
                == branch@),
        },
{
    if output.success {
        Ok(())
    } else {
        Err(RepositoryError::PushFailed { branch: branch.to_owned() })
    }
}

} // verus!
