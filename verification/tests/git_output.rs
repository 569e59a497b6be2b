use git_sherpa::error::RepositoryError;
use git_sherpa::git::{
    current_branch, has_upstream, hooks_dir, join_path, push_set_upstream, recent_commits,
    staged_files, worktree_clean, CommandOutput, GitCommand,
};

fn ok(stdout: &str) -> CommandOutput {
    CommandOutput { success: true, stdout: stdout.to_string() }
}

fn failed(stdout: &str) -> CommandOutput {
    CommandOutput { success: false, stdout: stdout.to_string() }
}

#[test]
fn branch_name_is_trimmed() {
    assert_eq!(current_branch(&ok("feat/login\n")).unwrap(), "feat/login");
    assert_eq!(current_branch(&ok("  main \r\n\t")).unwrap(), "main");
    assert_eq!(current_branch(&ok("a b\n")).unwrap(), "a b");
    assert_eq!(current_branch(&ok("\u{a0}x\u{2003}")).unwrap(), "x");
    assert_eq!(current_branch(&ok("")).unwrap(), "");
    assert_eq!(current_branch(&ok(" \n ")).unwrap(), "");
}

#[test]
fn failed_branch_query_means_no_repository() {
    let e = current_branch(&failed("main\n")).unwrap_err();
    assert!(matches!(e, RepositoryError::NoBranch));
    assert_eq!(e.message(), "Not a git repository or failed to get branch name");
}

#[test]
fn log_lines_are_split_at_the_first_separator() {
    let out = ok("abc123:::feat: one\ndef456:::fix: a:::b\nno separator here\n:::\n");
    assert_eq!(
        recent_commits(&out).unwrap(),
        vec![
            ("abc123".to_string(), "feat: one".to_string()),
            ("def456".to_string(), "fix: a:::b".to_string()),
            (String::new(), String::new()),
        ]
    );
}

#[test]
fn log_without_final_newline_and_with_crlf() {
    let out = ok("a:::x\r\nb:::y");
    assert_eq!(
        recent_commits(&out).unwrap(),
        vec![("a".to_string(), "x".to_string()), ("b".to_string(), "y".to_string())]
    );
    assert!(recent_commits(&ok("")).unwrap().is_empty());
    assert!(recent_commits(&ok("::\n:: :\n")).unwrap().is_empty());
}

#[test]
fn failed_log_is_an_error() {
    let e = recent_commits(&failed("a:::b\n")).unwrap_err();
    assert!(matches!(e, RepositoryError::NoLog));
    assert_eq!(e.message(), "Failed to read git log");
}

#[test]
fn worktree_is_clean_when_status_is_blank() {
    assert!(worktree_clean(&ok("")).unwrap());
    assert!(worktree_clean(&ok("\n")).unwrap());
    assert!(worktree_clean(&ok("  \t\n")).unwrap());
    assert!(!worktree_clean(&ok(" M src/lib.rs\n")).unwrap());
    assert!(!worktree_clean(&ok("?? x\n")).unwrap());
    let e = worktree_clean(&failed("")).unwrap_err();
    assert!(matches!(e, RepositoryError::NoStatus));
    assert_eq!(e.message(), "Failed to read git status");
}

#[test]
fn upstream_is_what_the_command_said() {
    assert!(has_upstream(&ok("origin/main\n")));
    assert!(!has_upstream(&failed("fatal: no upstream configured\n")));
}

#[test]
fn staged_files_are_the_lines() {
    assert_eq!(
        staged_files(&ok("src/a.rs\n.env\ndir with space/b\n")).unwrap(),
        vec!["src/a.rs", ".env", "dir with space/b"]
    );
    assert_eq!(staged_files(&ok("a\n\nb")).unwrap(), vec!["a", "", "b"]);
    assert_eq!(staged_files(&ok("a\r\nb\r")).unwrap(), vec!["a", "b\r"]);
    assert!(staged_files(&ok("")).unwrap().is_empty());
    assert_eq!(staged_files(&ok("\n")).unwrap(), vec![""]);
    let e = staged_files(&failed("a\n")).unwrap_err();
    assert!(matches!(e, RepositoryError::NoStagedFiles));
    assert_eq!(e.message(), "Failed to list staged files");
}

#[test]
fn hooks_directory_lies_below_the_git_directory() {
    assert_eq!(hooks_dir(&ok(".git\n")).unwrap(), ".git/hooks");
    assert_eq!(hooks_dir(&ok("/repo/.git/worktrees/x\n")).unwrap(), "/repo/.git/worktrees/x/hooks");
    assert_eq!(hooks_dir(&ok("/repo/.git/\n")).unwrap(), "/repo/.git/hooks");
    assert_eq!(hooks_dir(&ok("\n")).unwrap(), "hooks");
    let e = hooks_dir(&failed(".git\n")).unwrap_err();
    assert!(matches!(e, RepositoryError::NoGitDir));
    assert_eq!(e.message(), "Not a git repository");
}

#[test]
fn join_path_agrees_with_std() {
    for (dir, name) in [(".git/hooks", "pre-commit"), ("/", "x"), ("", "pre-push"), ("a/", "b")] {
        let expected = std::path::Path::new(dir).join(name);
        assert_eq!(join_path(dir, name), expected.to_str().unwrap());
    }
}

#[test]
fn push_outcome_names_the_branch() {
    assert!(push_set_upstream("feat/x", &ok("")).is_ok());
    let e = push_set_upstream("feat/x", &failed("")).unwrap_err();
    assert_eq!(e.message(), "Failed to push and set upstream for branch 'feat/x'");
}

#[test]
fn command_arguments() {
    assert_eq!(GitCommand::CurrentBranch.args(), vec!["rev-parse", "--abbrev-ref", "HEAD"]);
    assert_eq!(
        GitCommand::RecentCommits { limit: 20 }.args(),
        vec!["log", "-n20", "--pretty=format:%H:::%s"]
    );
    assert_eq!(GitCommand::RecentCommits { limit: 0 }.args()[1], "-n0");
    assert_eq!(GitCommand::RecentCommits { limit: 1005 }.args()[1], "-n1005");
    assert_eq!(
        GitCommand::RecentCommits { limit: usize::MAX }.args()[1],
        format!("-n{}", usize::MAX)
    );
    assert_eq!(GitCommand::WorktreeStatus.args(), vec!["status", "--porcelain"]);
    assert_eq!(
        GitCommand::Upstream.args(),
        vec!["rev-parse", "--abbrev-ref", "--symbolic-full-name", "@{u}"]
    );
    assert_eq!(GitCommand::GitDir.args(), vec!["rev-parse", "--git-dir"]);
    assert_eq!(GitCommand::StagedFiles.args(), vec!["diff", "--cached", "--name-only"]);
    assert_eq!(
        GitCommand::PushSetUpstream { branch: "feat/x".to_string() }.args(),
        vec!["push", "-u", "origin", "feat/x"]
    );
}
