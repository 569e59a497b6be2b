use git_sherpa::check::{build_report, RepoFacts, Report};
use git_sherpa::config::default_config;
use git_sherpa::fix::{fix, Remediation};

fn report(branch: &str, clean: bool, upstream: bool, subjects: &[&str], staged: &[&str]) -> Report {
    let facts = RepoFacts {
        branch: branch.to_string(),
        worktree_clean: clean,
        has_upstream: upstream,
        commits: subjects
            .iter()
            .enumerate()
            .map(|(i, s)| (format!("{:040x}", i + 1), s.to_string()))
            .collect(),
        staged: staged.iter().map(|s| s.to_string()).collect(),
    };
    build_report(&default_config(), 20, &facts).unwrap()
}

fn shown(plan: &[Remediation]) -> Vec<String> {
    plan.iter().map(|r| format!("{:?}", r)).collect()
}

#[test]
fn remedies_come_in_the_fixed_order() {
    let r = report("main", false, false, &["feat: a", "bad one", "worse"], &[".env", "x.pem"]);
    let plan = fix(&r, false);
    let h2 = format!("{:040x}", 2);
    let h3 = format!("{:040x}", 3);
    assert_eq!(
        shown(&plan),
        vec![
            format!(
                "RenameBranch {{ name: \"main\", pattern: {:?} }}",
                default_config().branches.pattern
            ),
            "CleanWorktree".to_string(),
            "PushUpstream { branch: \"main\" }".to_string(),
            format!("RewordCommit {{ hash: {:?} }}", h2),
            format!("RewordCommit {{ hash: {:?} }}", h3),
            "Unstage { path: \".env\" }".to_string(),
            "Unstage { path: \"x.pem\" }".to_string(),
        ]
    );
}

#[test]
fn apply_sets_the_upstream_exactly_once() {
    let r = report("feat/x", false, false, &["bad"], &["a.key"]);
    let plan = fix(&r, true);
    let automatic: Vec<&Remediation> = plan.iter().filter(|r| r.is_automatic()).collect();
    assert_eq!(automatic.len(), 1);
    match automatic[0] {
        Remediation::SetUpstream { branch } => assert_eq!(branch, "feat/x"),
        other => panic!("unexpected: {:?}", other),
    }
    assert!(matches!(plan[0], Remediation::CleanWorktree));
    assert!(matches!(plan[1], Remediation::SetUpstream { .. }));
    assert!(!plan.iter().any(|r| matches!(r, Remediation::PushUpstream { .. })));
}

#[test]
fn nothing_is_automatic_without_apply_or_with_an_upstream() {
    let r = report("main", false, false, &["bad"], &[".env"]);
    assert!(!fix(&r, false).iter().any(|r| r.is_automatic()));
    let r = report("main", false, true, &["bad"], &[".env"]);
    assert!(!fix(&r, true).iter().any(|r| r.is_automatic()));
    assert!(!fix(&r, true).iter().any(|r| matches!(r, Remediation::PushUpstream { .. })));
}

#[test]
fn clean_report_gets_the_one_confirmation() {
    let r = report("feat/x", true, true, &["feat: a", "fix(b): c"], &["src/lib.rs"]);
    for apply in [false, true] {
        let plan = fix(&r, apply);
        assert_eq!(plan.len(), 1);
        assert!(matches!(plan[0], Remediation::NothingToFix));
    }
}

#[test]
fn confirmation_never_stands_beside_a_remedy() {
    let r = report("feat/x", true, true, &["feat: a"], &["id_rsa"]);
    let plan = fix(&r, false);
    assert_eq!(shown(&plan), vec!["Unstage { path: \"id_rsa\" }".to_string()]);
}
