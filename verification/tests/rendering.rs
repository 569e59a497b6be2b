use git_sherpa::check::{build_report, RepoFacts, Report};
use git_sherpa::config::default_config;
use git_sherpa::error::RepositoryError;
use git_sherpa::fix::{fix, short_hash, upstream_outcome, Remediation};
use git_sherpa::git::GitCommand;
use git_sherpa::render::{render_report, Line, Tone};
use git_sherpa::sensitive::all_paths_fit;

fn report(branch: &str, upstream: bool, subjects: &[&str], staged: &[&str]) -> Report {
    let facts = RepoFacts {
        branch: branch.to_string(),
        worktree_clean: true,
        has_upstream: upstream,
        commits: subjects
            .iter()
            .enumerate()
            .map(|(i, s)| (format!("{:02}abcdef0123456789", i), s.to_string()))
            .collect(),
        staged: staged.iter().map(|s| s.to_string()).collect(),
    };
    build_report(&default_config(), 20, &facts).unwrap()
}

fn flat(line: &Line) -> String {
    line.spans.iter().map(|s| s.text.as_str()).collect()
}

fn tones(line: &Line) -> Vec<Tone> {
    line.spans.iter().map(|s| s.tone).collect()
}

#[test]
fn clean_report_is_written_out() {
    let r = report("feat/x", true, &["feat: a"], &[]);
    let lines = render_report(&r);
    let text: Vec<String> = lines.iter().map(flat).collect();
    assert_eq!(
        text,
        vec![
            "Branch: feat/x".to_string(),
            format!("Pattern: {}", default_config().branches.pattern),
            "Branch: OK".to_string(),
            String::new(),
            "Commits:".to_string(),
            "- 00abcdef feat: a [OK]".to_string(),
            String::new(),
            "Repo: worktree_clean=OK, upstream_set=OK".to_string(),
            String::new(),
            "Summary: ALL OK".to_string(),
        ]
    );
    assert_eq!(tones(&lines[2]), vec![Tone::Plain, Tone::Good]);
    assert_eq!(tones(&lines[5]), vec![Tone::Plain, Tone::Good, Tone::Plain]);
    assert_eq!(tones(&lines[9]), vec![Tone::GoodBold]);
    assert!(lines[3].spans.is_empty());
}

#[test]
fn violations_are_written_out() {
    let r = report("main", false, &["feat: a", "bad", "worse"], &[".env", "a/id_rsa"]);
    let lines = render_report(&r);
    let text: Vec<String> = lines.iter().map(flat).collect();
    assert_eq!(
        text,
        vec![
            "Branch: main".to_string(),
            format!("Pattern: {}", default_config().branches.pattern),
            "Branch: INVALID".to_string(),
            String::new(),
            "Commits:".to_string(),
            "- 00abcdef feat: a [OK]".to_string(),
            "- 01abcdef bad [INVALID]".to_string(),
            "- 02abcdef worse [INVALID]".to_string(),
            String::new(),
            "Repo: worktree_clean=OK, upstream_set=INVALID".to_string(),
            String::new(),
            "Sensitive files staged:".to_string(),
            "  - .env".to_string(),
            "  - a/id_rsa".to_string(),
            String::new(),
            "Summary: branch_ok=INVALID, invalid_commits=2, sensitive_files=2".to_string(),
        ]
    );
    assert_eq!(tones(&lines[2]), vec![Tone::Plain, Tone::Bad]);
    assert_eq!(tones(&lines[9]), vec![Tone::Plain, Tone::Good, Tone::Plain, Tone::Bad]);
    assert_eq!(tones(&lines[11]), vec![Tone::BadBold]);
    assert_eq!(tones(&lines[12]), vec![Tone::Plain, Tone::Bad]);
    assert_eq!(tones(&lines[15]), vec![Tone::Plain, Tone::Bad, Tone::Plain]);
}

#[test]
fn short_hash_takes_eight_characters() {
    assert_eq!(short_hash("0123456789abcdef"), "01234567");
    assert_eq!(short_hash("01234567"), "01234567");
    assert_eq!(short_hash("0123"), "0123");
    assert_eq!(short_hash(""), "");
}

#[test]
fn remedies_say_what_to_run() {
    let rename = Remediation::RenameBranch { name: "main".into(), pattern: "^x$".into() };
    assert_eq!(rename.heading(), "Branch name does not match pattern:");
    assert_eq!(rename.command().unwrap(), "git branch -m main <new-name-matching:^x$>");
    assert_eq!(Remediation::CleanWorktree.heading(), "Working tree is dirty:");
    assert_eq!(
        Remediation::CleanWorktree.command().unwrap(),
        "git stash  or  git add . && git commit"
    );
    let push = Remediation::PushUpstream { branch: "feat/x".into() };
    assert_eq!(push.heading(), "No upstream tracking branch:");
    assert_eq!(push.command().unwrap(), "git push -u origin feat/x");
    let reword = Remediation::RewordCommit { hash: "0123456789abcdef".into() };
    assert_eq!(reword.heading(), "Invalid commit 01234567:");
    assert_eq!(reword.command().unwrap(), "git rebase -i --reword 0123456789abcdef^");
    let unstage = Remediation::Unstage { path: ".env".into() };
    assert_eq!(unstage.heading(), "Sensitive files staged:");
    assert_eq!(unstage.command().unwrap(), "git reset HEAD .env");
    assert_eq!(Remediation::NothingToFix.heading(), "No fixes needed. You're good to go!");
    assert!(Remediation::NothingToFix.command().is_none());
}

#[test]
fn only_setting_the_upstream_is_run_by_the_tool() {
    let set = Remediation::SetUpstream { branch: "feat/x".into() };
    assert_eq!(set.heading(), "Setting upstream...");
    assert!(set.command().is_none());
    assert!(set.is_automatic());
    match set.action() {
        Some(GitCommand::PushSetUpstream { branch }) => assert_eq!(branch, "feat/x"),
        other => panic!("unexpected: {:?}", other),
    }
    let r = report("main", false, &["bad"], &[".env"]);
    for remedy in fix(&r, false) {
        assert!(remedy.action().is_none());
        assert!(!remedy.is_automatic());
    }
    let run: Vec<bool> = fix(&r, true).iter().map(|x| x.action().is_some()).collect();
    assert_eq!(run, vec![false, true, false, false]);
}

#[test]
fn a_failed_push_is_said_and_the_rest_still_follows() {
    let r = report("feat/x", false, &["bad"], &["a.pem"]);
    let plan = fix(&r, true);
    assert!(matches!(plan[0], Remediation::SetUpstream { .. }));
    let failed: Result<(), RepositoryError> =
        Err(RepositoryError::PushFailed { branch: "feat/x".into() });
    assert_eq!(
        upstream_outcome(&failed),
        "Failed to push and set upstream for branch 'feat/x'"
    );
    assert_eq!(upstream_outcome(&Ok(())), "Upstream set successfully.");
    assert!(matches!(plan[1], Remediation::RewordCommit { .. }));
    assert!(matches!(plan[2], Remediation::Unstage { .. }));
    assert_eq!(plan.len(), 3);
}

#[test]
fn ordinary_paths_fit_the_matcher() {
    assert!(all_paths_fit(&[]));
    assert!(all_paths_fit(&["a".to_string(), "x".repeat(10_000), String::new()]));
}
