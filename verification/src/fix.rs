//! Remedies for what a report found, in the order in which they are given.

use vstd::prelude::*;
use vstd::string::StringExecFns;
use crate::check::{invalid_commits, CommitFinding, Findings, Report};
use crate::error::RepositoryError;
use crate::git::GitCommand;
use crate::text::{chars_of, string_of_range};

verus! {

/// One remedy. Only `SetUpstream` is carried out by the tool itself; every
/// other one is an instruction to the user.
#[derive(Debug, Clone)]
pub enum Remediation {
    /// Rename the branch so that it matches the pattern.
    RenameBranch { name: String, pattern: String },
    /// Stash or commit what is in the worktree.
    CleanWorktree,
    /// The tool pushes the branch and sets its upstream.
    SetUpstream { branch: String },
    /// The user is told how to push the branch and set its upstream.
    PushUpstream { branch: String },
    /// Reword the commit with this hash.
    RewordCommit { hash: String },
    /// Take this path out of the index.
    Unstage { path: String },
    /// Nothing was violated.
    NothingToFix,
}

/// A remedy as plain values.
pub ghost enum Advice {
    RenameBranch { name: Seq<char>, pattern: Seq<char> },
    CleanWorktree,
    SetUpstream { branch: Seq<char> },
    PushUpstream { branch: Seq<char> },
    RewordCommit { hash: Seq<char> },
    Unstage { path: Seq<char> },
    NothingToFix,
}

impl View for Remediation {
    type V = Advice;

    open spec fn view(&self) -> Advice {
        match *self {
            Remediation::RenameBranch { name, pattern } => Advice::RenameBranch {
                name: name@,
                pattern: pattern@,
            },
            Remediation::CleanWorktree => Advice::CleanWorktree,
            Remediation::SetUpstream { branch } => Advice::SetUpstream { branch: branch@ },
            Remediation::PushUpstream { branch } => Advice::PushUpstream { branch: branch@ },
            Remediation::RewordCommit { hash } => Advice::RewordCommit { hash: hash@ },
            Remediation::Unstage { path } => Advice::Unstage { path: path@ },
            Remediation::NothingToFix => Advice::NothingToFix,
        }
    }
}

/// The views of a list of remedies.
pub open spec fn advice_views(plan: Seq<Remediation>) -> Seq<Advice> {
    plan.map_values(|r: Remediation| r@)
}

/// The remedy for an invalid branch name.
pub open spec fn branch_advice(found: Findings) -> Seq<Advice> {
    if found.branch.valid {
        Seq::empty()
    } else {
        seq![Advice::RenameBranch { name: found.branch.name, pattern: found.branch.pattern }]
    }
}

/// The remedy for a dirty worktree.
pub open spec fn worktree_advice(found: Findings) -> Seq<Advice> {
    if found.repo.worktree_clean {
        Seq::empty()
    } else {
        seq![Advice::CleanWorktree]
    }
}

/// The remedy for a missing upstream: carried out when `apply` is set,
/// otherwise told.
pub open spec fn upstream_advice(found: Findings, apply: bool) -> Seq<Advice> {
    if found.repo.upstream_set {
        Seq::empty()
    } else if apply {
        seq![Advice::SetUpstream { branch: found.branch.name }]
    } else {
        seq![Advice::PushUpstream { branch: found.branch.name }]
    }
}

/// One remedy for each invalid commit, in the order of the report.
pub open spec fn commit_advice(commits: Seq<CommitFinding>) -> Seq<Advice> {
    invalid_commits(commits).map_values(|c: CommitFinding| Advice::RewordCommit { hash: c.hash })
}

/// One remedy for each staged secret, in the order of the report.
pub open spec fn sensitive_advice(paths: Seq<Seq<char>>) -> Seq<Advice> {
    paths.map_values(|p: Seq<char>| Advice::Unstage { path: p })
}

/// The remedies for the violated findings: branch, worktree, upstream,
/// commits, staged secrets.
pub open spec fn violated_advice(found: Findings, apply: bool) -> Seq<Advice> {
    branch_advice(found) + worktree_advice(found) + upstream_advice(found, apply) + commit_advice(
        found.commits,
    ) + sensitive_advice(found.sensitive)
}

/// What the advisor gives: the remedies for the violated findings, or, where
/// nothing is violated, the one confirmation of that.
pub open spec fn advice_for(found: Findings, apply: bool) -> Seq<Advice> {
    if violated_advice(found, apply).len() == 0 {
        seq![Advice::NothingToFix]
    } else {
        violated_advice(found, apply)
    }
}

/// Derives the remedies from a report. With `apply` the missing upstream is
/// for the tool to set; nothing else is ever for the tool to do.
pub fn fix(report: &Report, apply: bool) -> (plan: Vec<Remediation>)
    ensures
        advice_views(plan@) == advice_for(report@, apply),
{
    let ghost found = report@;
    let mut plan: Vec<Remediation> = Vec::new();
    if !report.branch.valid {
        plan.push(
            Remediation::RenameBranch {
                name: report.branch.name.clone(),
                pattern: report.branch.pattern.clone(),
            },
        );
    }
    if !report.repo.worktree_clean {
        plan.push(Remediation::CleanWorktree);
    }
    if !report.repo.upstream_set {
        if apply {
            plan.push(Remediation::SetUpstream { branch: report.branch.name.clone() });
        } else {
            plan.push(Remediation::PushUpstream { branch: report.branch.name.clone() });
        }
    }
    let ghost head = branch_advice(found) + worktree_advice(found) + upstream_advice(found, apply);

    let ghost pred = |c: CommitFinding| !c.valid;
    let ghost to_advice = |c: CommitFinding| Advice::RewordCommit { hash: c.hash };
    let mut i: usize = 0;
    proof {
        reveal(Seq::filter);
    }
    while i < report.commits.len()
        invariant
            i <= report.commits.len(),
            found == report@,
            pred == (|c: CommitFinding| !c.valid),
            to_advice == (|c: CommitFinding| Advice::RewordCommit { hash: c.hash }),
            advice_views(plan@) == head + found.commits.take(i as int).filter(pred).map_values(
                to_advice,
            ),
        decreases report.commits.len() - i,
    {
        proof {
            reveal(Seq::filter);
            let upto = found.commits.take(i + 1);
            assert(upto.drop_last() =~= found.commits.take(i as int));
        }
        if !report.commits[i].valid {
            let ghost before = plan@;
            plan.push(Remediation::RewordCommit { hash: report.commits[i].hash.clone() });
            assert(advice_views(plan@) =~= advice_views(before).push(
                to_advice(report.commits@[i as int]@),
            ));
        }
        i += 1;
    }
    assert(found.commits.take(report.commits.len() as int) =~= found.commits);
    let ghost upper = head + commit_advice(found.commits);

    let ghost to_unstage = |p: Seq<char>| Advice::Unstage { path: p };
    let mut k: usize = 0;
    while k < report.sensitive.files.len()
        invariant
            k <= report.sensitive.files.len(),
            found == report@,
            to_unstage == (|p: Seq<char>| Advice::Unstage { path: p }),
            advice_views(plan@) == upper + found.sensitive.take(k as int).map_values(to_unstage),
        decreases report.sensitive.files.len() - k,
    {
        let ghost before = plan@;
        plan.push(Remediation::Unstage { path: report.sensitive.files[k].clone() });
        assert(advice_views(plan@) =~= advice_views(before).push(
            to_unstage(report.sensitive.files@[k as int]@),
        ));
        k += 1;
    }
    if plan.len() == 0 {
        plan.push(Remediation::NothingToFix);
    }
    plan
}

impl Advice {
    /// Whether the remedy is for the tool to carry out.
    pub open spec fn is_automatic(self) -> bool {
        self is SetUpstream
    }
}

impl Remediation {
    /// Whether the remedy is for the tool to carry out.
    pub fn is_automatic(&self) -> (automatic: bool)
        ensures
            automatic == self@.is_automatic(),
    {
        match self {
            Remediation::SetUpstream { .. } => true,
            _ => false,
        }
    }
}

/// The first eight characters of a hash, or all of it if it has fewer.
pub open spec fn short_hash_text(hash: Seq<char>) -> Seq<char> {
    if hash.len() <= 8 {
        hash
    } else {
        hash.take(8)
    }
}

/// The first eight characters of a hash, or all of it if it has fewer.
pub fn short_hash(hash: &str) -> (short: String)
    ensures
        short@ == short_hash_text(hash@),
{
    let chars = chars_of(hash);
    let n = if chars.len() <= 8 {
        chars.len()
    } else {
        8
    };
    string_of_range(&chars, 0, n)
}

impl Advice {
    /// What is said above the remedy.
    pub open spec fn heading(self) -> Seq<char> {
        match self {
            Advice::RenameBranch { .. } => "Branch name does not match pattern:"@,
            Advice::CleanWorktree => "Working tree is dirty:"@,
            Advice::SetUpstream { .. } => "Setting upstream..."@,
            Advice::PushUpstream { .. } => "No upstream tracking branch:"@,
            Advice::RewordCommit { hash } => "Invalid commit "@ + short_hash_text(hash) + ":"@,
            Advice::Unstage { .. } => "Sensitive files staged:"@,
            Advice::NothingToFix => "No fixes needed. You're good to go!"@,
        }
    }

    /// The command that the user is told to run, where the remedy is one for
    /// the user.
    pub open spec fn command(self) -> Option<Seq<char>> {
        match self {
            Advice::RenameBranch { name, pattern } => Some(
                "git branch -m "@ + name + " <new-name-matching:"@ + pattern + ">"@,
            ),
            Advice::CleanWorktree => Some("git stash  or  git add . && git commit"@),
            Advice::SetUpstream { .. } => None,
            Advice::PushUpstream { branch } => Some("git push -u origin "@ + branch),
            Advice::RewordCommit { hash } => Some("git rebase -i --reword "@ + hash + "^"@),
            Advice::Unstage { path } => Some("git reset HEAD "@ + path),
            Advice::NothingToFix => None,
        }
    }
}

/// The command of a remedy that may have none, as plain values.
pub open spec fn command_text(command: Option<String>) -> Option<Seq<char>> {
    match command {
        Some(c) => Some(c@),
        None => None,
    }
}

impl Remediation {
    /// What is said above the remedy.
    pub fn heading(&self) -> (text: String)
        ensures
            text@ == self@.heading(),
    {
        match self {
            Remediation::RenameBranch { .. } => "Branch name does not match pattern:".to_owned(),
            Remediation::CleanWorktree => "Working tree is dirty:".to_owned(),
            Remediation::SetUpstream { .. } => "Setting upstream...".to_owned(),
            Remediation::PushUpstream { .. } => "No upstream tracking branch:".to_owned(),
            Remediation::RewordCommit { hash } => {
                "Invalid commit ".to_owned().concat(short_hash(hash.as_str()).as_str()).concat(":")
            },
            Remediation::Unstage { .. } => "Sensitive files staged:".to_owned(),
            Remediation::NothingToFix => "No fixes needed. You're good to go!".to_owned(),
        }
    }

    /// The command that the user is told to run, where the remedy is one for
    /// the user.
    pub fn command(&self) -> (text: Option<String>)
        ensures
            command_text(text) == self@.command(),
    {
        match self {
            Remediation::RenameBranch { name, pattern } => Some(
                "git branch -m ".to_owned().concat(name.as_str()).concat(
                    " <new-name-matching:",
                ).concat(pattern.as_str()).concat(">"),
            ),
            Remediation::CleanWorktree => Some("git stash  or  git add . && git commit".to_owned()),
            Remediation::SetUpstream { .. } => None,
            Remediation::PushUpstream { branch } => Some(
                "git push -u origin ".to_owned().concat(branch.as_str()),
            ),
            Remediation::RewordCommit { hash } => Some(
                "git rebase -i --reword ".to_owned().concat(hash.as_str()).concat("^"),
            ),
            Remediation::Unstage { path } => Some("git reset HEAD ".to_owned().concat(path.as_str())),
            Remediation::NothingToFix => None,
        }
    }

    /// What the tool runs for the remedy, where the remedy is one for the
    /// tool: the push that sets the upstream.
    pub fn action(&self) -> (run: Option<GitCommand>)
        ensures
            match run {
                Some(c) => self@.is_automatic() && (c matches GitCommand::PushSetUpstream { branch }
                    && self@ == (Advice::SetUpstream { branch: branch@ })),
                None => !self@.is_automatic(),
            },
    {
        match self {
            Remediation::SetUpstream { branch } => Some(
                GitCommand::PushSetUpstream { branch: branch.clone() },
            ),
            _ => None,
        }
    }
}

/// What is said once the tool has tried to set the upstream: that it is
/// set, or the fault. Either way the remedies that follow are still given.
pub fn upstream_outcome(done: &Result<(), RepositoryError>) -> (text: String)
    ensures
        text@ == match *done {
            Ok(_) => "Upstream set successfully."@,
            Err(e) => e.message_text(),
        },
{
    match done {
        Ok(_) => "Upstream set successfully.".to_owned(),
        Err(e) => e.message(),
    }
}

/// Where the remedy for the upstream stands among the remedies, if there is
/// one.
pub open spec fn upstream_index(found: Findings) -> int {
    (branch_advice(found).len() + worktree_advice(found).len()) as int
}

/// With `apply` and a missing upstream, setting the upstream stands in the
/// remedies exactly once, for the current branch, and nothing else in them is
/// for the tool to do. In every other case nothing at all is for the tool to
/// do.
pub proof fn lemma_upstream_set_once(found: Findings, apply: bool)
    ensures
        ({
            let plan = advice_for(found, apply);
            let at = upstream_index(found);
            &&& apply && !found.repo.upstream_set ==> 0 <= at < plan.len() && plan[at]
                == (Advice::SetUpstream { branch: found.branch.name })
            &&& forall|j: int|
                0 <= j < plan.len() && #[trigger] plan[j].is_automatic() ==> apply
                    && !found.repo.upstream_set && j == at
        }),
{
}

/// The advisor confirms that nothing needs fixing exactly when no finding is
/// violated, and then it gives nothing else.
pub proof fn lemma_confirms_clean_state(found: Findings, apply: bool)
    ensures
        ({
            let clean = found.branch.valid && found.repo.worktree_clean && found.repo.upstream_set
                && invalid_commits(found.commits).len() == 0 && found.sensitive.len() == 0;
            &&& clean ==> advice_for(found, apply) == seq![Advice::NothingToFix]
            &&& !clean ==> forall|j: int|
                0 <= j < advice_for(found, apply).len() ==> #[trigger] advice_for(found, apply)[j]
                    != Advice::NothingToFix
        }),
{
}

} // verus!
