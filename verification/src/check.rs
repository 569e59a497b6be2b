//! The report: what was found when a repository was held against a policy.

use vstd::prelude::*;
use crate::config::Config;
use crate::convention::{convention_for, known_convention, Convention};
use crate::error::ConfigError;
use crate::pattern::{regex_compiles, regex_finds, search_pattern};
use crate::sensitive::{check_sensitive_files, paths_fit, sensitive_paths};
use crate::text::texts;

verus! {

/// What was found of the current branch.
#[derive(Debug, Clone)]
pub struct BranchReport {
    pub name: String,
    /// The pattern that the name was checked against.
    pub pattern: String,
    pub valid: bool,
}

/// What was found of one commit.
#[derive(Debug, Clone)]
pub struct CommitReport {
    pub hash: String,
    /// The subject line.
    pub message: String,
    pub valid: bool,
}

/// What was found of the repository's state. A flag is `true` when the
/// state is as demanded, or when nothing was demanded of it.
#[derive(Debug, Clone, Copy, PartialEq, Eq, Structural)]
pub struct RepoReport {
    pub worktree_clean: bool,
    pub upstream_set: bool,
}

/// The staged files that look like secrets, in the order in which they were
/// staged.
#[derive(Debug, Clone)]
pub struct SensitiveReport {
    pub files: Vec<String>,
}

/// Counts and flags drawn from the findings. It says nothing of its own: it
/// is always what `summary_of` gives for the findings beside it.
#[derive(Debug, Clone, Copy, PartialEq, Eq, Structural)]
pub struct Summary {
    pub total_commits: usize,
    pub invalid_commits: usize,
    pub branch_valid: bool,
    pub worktree_clean: bool,
    pub upstream_set: bool,
    pub sensitive_files: usize,
}

/// All that one run found.
#[derive(Debug, Clone)]
pub struct Report {
    pub branch: BranchReport,
    /// Most recent first.
    pub commits: Vec<CommitReport>,
    pub repo: RepoReport,
    pub sensitive: SensitiveReport,
    pub summary: Summary,
}

/// A branch finding as plain values.
pub ghost struct BranchFinding {
    pub name: Seq<char>,
    pub pattern: Seq<char>,
    pub valid: bool,
}

/// A commit finding as plain values.
pub ghost struct CommitFinding {
    pub hash: Seq<char>,
    pub message: Seq<char>,
    pub valid: bool,
}

/// A report without its summary, as plain values.
pub ghost struct Findings {
    pub branch: BranchFinding,
    pub commits: Seq<CommitFinding>,
    pub repo: RepoReport,
    pub sensitive: Seq<Seq<char>>,
}

impl View for BranchReport {
    type V = BranchFinding;

    open spec fn view(&self) -> BranchFinding {
        BranchFinding { name: self.name@, pattern: self.pattern@, valid: self.valid }
    }
}

impl View for CommitReport {
    type V = CommitFinding;

    open spec fn view(&self) -> CommitFinding {
        CommitFinding { hash: self.hash@, message: self.message@, valid: self.valid }
    }
}

/// The commit findings of a list of commit reports.
pub open spec fn commit_findings(commits: Seq<CommitReport>) -> Seq<CommitFinding> {
    commits.map_values(|c: CommitReport| c@)
}

impl View for Report {
    type V = Findings;

    open spec fn view(&self) -> Findings {
        Findings {
            branch: self.branch@,
            commits: commit_findings(self.commits@),
            repo: self.repo,
            sensitive: texts(self.sensitive.files@),
        }
    }
}

/// The commits that were found invalid, in their order.
pub open spec fn invalid_commits(commits: Seq<CommitFinding>) -> Seq<CommitFinding> {
    commits.filter(|c: CommitFinding| !c.valid)
}

/// The summary that belongs to the findings.
pub open spec fn summary_of(found: Findings) -> Summary {
    Summary {
        total_commits: found.commits.len() as usize,
        invalid_commits: invalid_commits(found.commits).len() as usize,
        branch_valid: found.branch.valid,
        worktree_clean: found.repo.worktree_clean,
        upstream_set: found.repo.upstream_set,
        sensitive_files: found.sensitive.len() as usize,
    }
}

impl Report {
    /// The summary is the one that the findings give.
    pub open spec fn wf(&self) -> bool {
        self.summary == summary_of(self@)
    }
}

/// How many of the commits were found invalid.
pub fn count_invalid(commits: &Vec<CommitReport>) -> (n: usize)
    ensures
        n == invalid_commits(commit_findings(commits@)).len(),
{
    let ghost all = commit_findings(commits@);
    let ghost pred = |c: CommitFinding| !c.valid;
    let mut n: usize = 0;
    let mut i: usize = 0;
    proof {
        reveal(Seq::filter);
    }
    while i < commits.len()
        invariant
            i <= commits.len(),
            all == commit_findings(commits@),
            pred == (|c: CommitFinding| !c.valid),
            n == all.take(i as int).filter(pred).len(),
            n <= i,
        decreases commits.len() - i,
    {
        proof {
            reveal(Seq::filter);
            let upto = all.take(i + 1);
            assert(upto.drop_last() =~= all.take(i as int));
        }
        if !commits[i].valid {
            n += 1;
        }
        i += 1;
    }
    assert(all.take(commits.len() as int) =~= all);
    n
}

/// Draws the summary from the findings.
pub fn summarize(
    branch: &BranchReport,
    commits: &Vec<CommitReport>,
    repo: &RepoReport,
    sensitive: &SensitiveReport,
) -> (summary: Summary)
    ensures
        summary == summary_of(
            Findings {
                branch: branch@,
                commits: commit_findings(commits@),
                repo: *repo,
                sensitive: texts(sensitive.files@),
            },
        ),
{
    Summary {
        total_commits: commits.len(),
        invalid_commits: count_invalid(commits),
        branch_valid: branch.valid,
        worktree_clean: repo.worktree_clean,
        upstream_set: repo.upstream_set,
        sensitive_files: sensitive.files.len(),
    }
}

/// What the repository answered when it was asked.
#[derive(Debug, Clone)]
pub struct RepoFacts {
    /// The name of the current branch.
    pub branch: String,
    /// Whether the worktree is clean; not read where the policy does not
    /// demand a clean worktree.
    pub worktree_clean: bool,
    /// Whether the branch has an upstream; not read where the policy does
    /// not demand one.
    pub has_upstream: bool,
    /// Hash and subject of the recent commits, most recent first.
    pub commits: Vec<(String, String)>,
    /// The staged paths, relative to the repository.
    pub staged: Vec<String>,
}

/// Which questions the repository has to be asked.
#[derive(Debug, Clone, Copy, PartialEq, Eq, Structural)]
pub struct QueryPlan {
    pub worktree: bool,
    pub upstream: bool,
    pub commit_limit: usize,
}

/// Decides what to ask the repository. A configuration whose convention is
/// unknown is refused here, before anything is asked.
pub fn plan_queries(config: &Config, commit_limit: usize) -> (plan: Result<QueryPlan, ConfigError>)
    ensures
        match plan {
            Ok(p) => {
                &&& known_convention(config.commits.convention@) is Some
                &&& p == (QueryPlan {
                    worktree: config.checks.require_clean_worktree,
                    upstream: config.checks.require_upstream,
                    commit_limit,
                })
            },
            Err(e) => {
                &&& known_convention(config.commits.convention@) is None
                &&& e matches ConfigError::UnsupportedConvention { name }
                &&& name@ == config.commits.convention@
            },
        },
{
    match convention_for(config.commits.convention.as_str()) {
        Ok(_) => Ok(
            QueryPlan {
                worktree: config.checks.require_clean_worktree,
                upstream: config.checks.require_upstream,
                commit_limit,
            },
        ),
        Err(e) => Err(e),
    }
}

/// The finding for the commit with this hash and subject.
pub open spec fn commit_finding(convention: Convention, commit: (String, String)) -> CommitFinding {
    CommitFinding { hash: commit.0@, message: commit.1@, valid: convention.accepts(commit.1@) }
}

/// The findings for the first `limit` commits, in their order.
pub open spec fn commit_findings_for(
    convention: Convention,
    commits: Seq<(String, String)>,
    limit: nat,
) -> Seq<CommitFinding> {
    Seq::new(
        if commits.len() <= limit {
            commits.len()
        } else {
            limit
        },
        |i: int| commit_finding(convention, commits[i]),
    )
}

/// The findings that the facts give under the policy, once it is known
/// whether the branch name matches its pattern.
pub open spec fn findings_for(
    config: Config,
    convention: Convention,
    commit_limit: nat,
    facts: RepoFacts,
    branch_valid: bool,
) -> Findings {
    Findings {
        branch: BranchFinding {
            name: facts.branch@,
            pattern: config.branches.pattern@,
            valid: branch_valid,
        },
        commits: commit_findings_for(convention, facts.commits@, commit_limit),
        repo: RepoReport {
            worktree_clean: !config.checks.require_clean_worktree || facts.worktree_clean,
            upstream_set: !config.checks.require_upstream || facts.has_upstream,
        },
        sensitive: sensitive_paths(texts(facts.staged@), texts(config.sensitive.patterns@)),
    }
}

/// Checks the subject of each of the first `limit` commits.
pub fn check_commits(convention: Convention, commits: &Vec<(String, String)>, limit: usize) -> (out:
    Vec<CommitReport>)
    ensures
        commit_findings(out@) == commit_findings_for(convention, commits@, limit as nat),
{
    let n = if commits.len() <= limit {
        commits.len()
    } else {
        limit
    };
    let mut out: Vec<CommitReport> = Vec::new();
    let mut i: usize = 0;
    while i < n
        invariant
            i <= n <= commits.len(),
            out.len() == i,
            forall|j: int| 0 <= j < i ==> (#[trigger] out@[j])@ == commit_finding(convention, commits@[j]),
        decreases n - i,
    {
        let valid = convention.is_match(commits[i].1.as_str());
        out.push(CommitReport { hash: commits[i].0.clone(), message: commits[i].1.clone(), valid });
        i += 1;
    }
    out
}

/// Puts the report together, given what the search of the branch name for
/// its pattern gave. A pattern that could not be used is refused, with the
/// pattern in the error.
pub fn assemble_report(
    config: &Config,
    convention: Convention,
    commit_limit: usize,
    facts: &RepoFacts,
    searched: Result<bool, regex::Error>,
) -> (built: Result<Report, ConfigError>)
    requires
        paths_fit(facts.staged@),
    ensures
        match searched {
            Ok(hit) => {
                &&& built matches Ok(report)
                &&& report@ == findings_for(*config, convention, commit_limit as nat, *facts, hit)
                &&& report.wf()
                &&& report.commits@.len() <= commit_limit
            },
            Err(_) => {
                &&& built matches Err(ConfigError::InvalidBranchPattern { pattern })
                &&& pattern@ == config.branches.pattern@
            },
        },
{
    let branch_valid = match searched {
        Ok(hit) => hit,
        Err(_) => {
            return Err(ConfigError::InvalidBranchPattern { pattern: config.branches.pattern.clone() });
        },
    };
    let branch = BranchReport {
        name: facts.branch.clone(),
        pattern: config.branches.pattern.clone(),
        valid: branch_valid,
    };
    let repo = RepoReport {
        worktree_clean: !config.checks.require_clean_worktree || facts.worktree_clean,
        upstream_set: !config.checks.require_upstream || facts.has_upstream,
    };
    let commits = check_commits(convention, &facts.commits, commit_limit);
    let sensitive = SensitiveReport {
        files: check_sensitive_files(facts.staged.as_slice(), config.sensitive.patterns.as_slice()),
    };
    let summary = summarize(&branch, &commits, &repo, &sensitive);
    Ok(Report { branch, commits, repo, sensitive, summary })
}

/// Holds the facts against the policy. The convention is resolved first, then
/// the branch name is searched for its pattern. A report is built exactly
/// when the convention is known and the pattern can be used.
pub fn build_report(config: &Config, commit_limit: usize, facts: &RepoFacts) -> (built: Result<
    Report,
    ConfigError,
>)
    requires
        paths_fit(facts.staged@),
    ensures
        match built {
            Ok(report) => {
                &&& known_convention(config.commits.convention@) matches Some(convention)
                &&& report@ == findings_for(
                    *config,
                    convention,
                    commit_limit as nat,
                    *facts,
                    regex_finds(config.branches.pattern@, facts.branch@),
                )
                &&& report.wf()
                &&& report.commits@.len() <= commit_limit
            },
            Err(ConfigError::UnsupportedConvention { name }) => {
                &&& known_convention(config.commits.convention@) is None
                &&& name@ == config.commits.convention@
            },
            Err(ConfigError::InvalidBranchPattern { pattern }) => {
                &&& known_convention(config.commits.convention@) is Some
                &&& !regex_compiles(config.branches.pattern@)
                &&& pattern@ == config.branches.pattern@
            },
            Err(ConfigError::AlreadyExists { .. }) => false,
        },
        built is Ok <==> known_convention(config.commits.convention@) is Some && regex_compiles(
            config.branches.pattern@,
        ),
{
    let convention = match convention_for(config.commits.convention.as_str()) {
        Ok(c) => c,
        Err(e) => {
            return Err(e);
        },
    };
    let searched = search_pattern(config.branches.pattern.as_str(), facts.branch.as_str());
    assemble_report(config, convention, commit_limit, facts, searched)
}

/// What a check ends with: the report, and the exit status that it calls
/// for.
#[derive(Debug, Clone)]
pub struct CheckOutcome {
    pub report: Report,
    /// 1 if the policy is violated, else 0.
    pub exit_code: i32,
}

/// Holds the facts against the policy and says how the check ends. What is
/// violated is told by the report and the exit status, never by an error: an
/// error means that the configuration could not be used.
pub fn check(config: &Config, commit_limit: usize, facts: &RepoFacts) -> (outcome: Result<
    CheckOutcome,
    ConfigError,
>)
    requires
        paths_fit(facts.staged@),
    ensures
        match outcome {
            Ok(done) => {
                &&& known_convention(config.commits.convention@) matches Some(convention)
                &&& done.report@ == findings_for(
                    *config,
                    convention,
                    commit_limit as nat,
                    *facts,
                    regex_finds(config.branches.pattern@, facts.branch@),
                )
                &&& done.report.wf()
                &&& done.exit_code == if done.report.violated() {
                    1i32
                } else {
                    0i32
                }
            },
            Err(ConfigError::UnsupportedConvention { name }) => {
                &&& known_convention(config.commits.convention@) is None
                &&& name@ == config.commits.convention@
            },
            Err(ConfigError::InvalidBranchPattern { pattern }) => {
                &&& known_convention(config.commits.convention@) is Some
                &&& !regex_compiles(config.branches.pattern@)
                &&& pattern@ == config.branches.pattern@
            },
            Err(ConfigError::AlreadyExists { .. }) => false,
        },
        outcome is Ok <==> known_convention(config.commits.convention@) is Some && regex_compiles(
            config.branches.pattern@,
        ),
{
    match build_report(config, commit_limit, facts) {
        Ok(report) => {
            let exit_code = report.exit_code();
            Ok(CheckOutcome { report, exit_code })
        },
        Err(e) => Err(e),
    }
}

/// What a finding is about.
#[derive(Debug, Clone, Copy, PartialEq, Eq, Structural)]
pub enum FindingKind {
    Branch,
    Commits,
    Worktree,
    Upstream,
    SensitiveFiles,
}

/// One finding, reduced to whether the policy is violated in it.
#[derive(Debug, Clone, Copy, PartialEq, Eq, Structural)]
pub struct Finding {
    pub kind: FindingKind,
    pub violated: bool,
}

/// The findings that a summary stands for, one of each kind.
pub open spec fn summary_findings(summary: Summary) -> Seq<Finding> {
    seq![
        Finding { kind: FindingKind::Branch, violated: !summary.branch_valid },
        Finding { kind: FindingKind::Commits, violated: summary.invalid_commits > 0 },
        Finding { kind: FindingKind::Worktree, violated: !summary.worktree_clean },
        Finding { kind: FindingKind::Upstream, violated: !summary.upstream_set },
        Finding { kind: FindingKind::SensitiveFiles, violated: summary.sensitive_files > 0 },
    ]
}

/// The policy is violated when it is violated in at least one finding.
pub open spec fn any_violated(findings: Seq<Finding>) -> bool {
    exists|i: int| 0 <= i < findings.len() && (#[trigger] findings[i]).violated
}

/// Whether at least one of the findings is a violation.
pub fn any_violation(findings: &Vec<Finding>) -> (violated: bool)
    ensures
        violated == any_violated(findings@),
{
    let mut i: usize = 0;
    while i < findings.len()
        invariant
            i <= findings.len(),
            forall|j: int| 0 <= j < i ==> !(#[trigger] findings@[j]).violated,
        decreases findings.len() - i,
    {
        if findings[i].violated {
            return true;
        }
        i += 1;
    }
    false
}

impl Summary {
    /// The findings that the summary stands for, one of each kind.
    pub fn findings(&self) -> (list: Vec<Finding>)
        ensures
            list@ == summary_findings(*self),
    {
        let mut list: Vec<Finding> = Vec::new();
        list.push(Finding { kind: FindingKind::Branch, violated: !self.branch_valid });
        list.push(Finding { kind: FindingKind::Commits, violated: self.invalid_commits > 0 });
        list.push(Finding { kind: FindingKind::Worktree, violated: !self.worktree_clean });
        list.push(Finding { kind: FindingKind::Upstream, violated: !self.upstream_set });
        list.push(Finding { kind: FindingKind::SensitiveFiles, violated: self.sensitive_files > 0 });
        list
    }
}

impl Report {
    /// The policy is violated: the branch is invalid, or a commit is, or the
    /// worktree is dirty where a clean one is demanded, or the upstream is
    /// missing where one is demanded, or a secret is staged.
    pub open spec fn violated(&self) -> bool {
        any_violated(summary_findings(self.summary))
    }

    /// Whether the policy is violated.
    pub fn has_violations(&self) -> (violated: bool)
        ensures
            violated == self.violated(),
    {
        let findings = self.summary.findings();
        any_violation(&findings)
    }

    /// The exit status of a check: 1 if the policy is violated, else 0.
    pub fn exit_code(&self) -> (code: i32)
        ensures
            code == if self.violated() {
                1i32
            } else {
                0i32
            },
    {
        if self.has_violations() {
            1
        } else {
            0
        }
    }
}

/// The summary of a well-formed report says what its findings say: it counts
/// the commits and the invalid ones among them, counts the staged secrets,
/// and repeats the three flags.
pub proof fn lemma_summary_reproduces_findings(report: Report)
    requires
        report.wf(),
    ensures
        report.summary == summary_of(report@),
        report.summary.total_commits == report.commits@.len(),
        report.summary.invalid_commits == invalid_commits(report@.commits).len(),
        report.summary.branch_valid == report.branch.valid,
        report.summary.worktree_clean == report.repo.worktree_clean,
        report.summary.upstream_set == report.repo.upstream_set,
        report.summary.sensitive_files == report.sensitive.files@.len(),
{
    let all = report@.commits;
    all.lemma_filter_len(|c: CommitFinding| !c.valid);
    assert(report.commits@.len() == report.commits.len());
    assert(report.sensitive.files@.len() == report.sensitive.files.len());
}

/// A well-formed report is violated exactly when one of its findings is: an
/// invalid branch, an invalid commit, a dirty worktree, a missing upstream or
/// a staged secret.
pub proof fn lemma_violated_by_findings(report: Report)
    requires
        report.wf(),
    ensures
        report.violated() <==> {
            ||| !report.branch.valid
            ||| exists|i: int| 0 <= i < report.commits@.len() && !(#[trigger] report.commits@[i]).valid
            ||| !report.repo.worktree_clean
            ||| !report.repo.upstream_set
            ||| report.sensitive.files@.len() > 0
        },
{
    lemma_summary_reproduces_findings(report);
    let all = report@.commits;
    let pred = |c: CommitFinding| !c.valid;
    let some_invalid = exists|i: int|
        0 <= i < report.commits@.len() && !(#[trigger] report.commits@[i]).valid;
    if some_invalid {
        let i = choose|i: int| 0 <= i < report.commits@.len() && !(#[trigger] report.commits@[i]).valid;
        all.lemma_filter_contains(pred, i);
    }
    if all.filter(pred).len() > 0 {
        all.lemma_filter_pred(pred, 0);
        let c = all.filter(pred)[0];
        all.lemma_filter_contains_rev(pred, c);
    }
}

} // verus!
