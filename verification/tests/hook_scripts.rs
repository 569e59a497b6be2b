use git_sherpa::hooks::{
    hook_content, hook_marker, install_with_config, is_marked, pre_push_hook_content, uninstall,
    write_shell_word, HookFiles, HookName, HooksPresent, InstallStep, UninstallStep, HOOK_MODE,
};

#[test]
fn hook_content_has_shebang() {
    assert!(hook_content().starts_with("#!/bin/sh\n"));
}

#[test]
fn hook_content_has_marker() {
    assert!(hook_content().contains("# git-sherpa"));
}

#[test]
fn hook_content_has_exec() {
    assert!(hook_content().contains("exec git-sherpa check"));
}

#[test]
fn pre_push_blocks_protected_branches() {
    let content = pre_push_hook_content(&["main".into(), "master".into()]);
    assert!(content.contains("main|master"));
    assert!(content.contains("force push is blocked"));
    assert!(content.contains("direct push to"));
}

#[test]
fn pre_push_has_marker() {
    let content = pre_push_hook_content(&["main".into()]);
    assert!(content.contains(hook_marker().as_str()));
}

#[test]
fn hook_content_is_exact() {
    assert_eq!(hook_content(), "#!/bin/sh\n# git-sherpa\nexec git-sherpa check\n");
    assert_eq!(hook_marker(), "# git-sherpa");
}

#[test]
fn pre_push_content_is_exact() {
    let expected = r#"#!/bin/sh
# git-sherpa

# Block force push
for arg in "$@"; do
    case "$arg" in
        --force|-f|--force-with-lease)
            echo "git-sherpa: force push is blocked."
            exit 1
            ;;
    esac
done

# Block push to protected branches
current_branch=$(git rev-parse --abbrev-ref HEAD)
case "$current_branch" in
    main|release|dev)
        echo "git-sherpa: direct push to '$current_branch' is blocked. Use a pull request."
        exit 1
        ;;
esac

exec git-sherpa check
"#;
    let content = pre_push_hook_content(&["main".into(), "release".into(), "dev".into()]);
    assert_eq!(content, expected);
}

#[test]
fn pre_push_checks_force_then_branch_then_delegates() {
    let content = pre_push_hook_content(&["main".into()]);
    let force = content.find("force push is blocked").unwrap();
    let branch = content.find("direct push to").unwrap();
    let delegate = content.find("exec git-sherpa check").unwrap();
    assert!(force < branch && branch < delegate);
}

#[test]
fn marker_is_found_anywhere_in_a_file() {
    assert!(is_marked("# git-sherpa"));
    assert!(is_marked("#!/bin/sh\necho hi\n# git-sherpa\n"));
    assert!(!is_marked(""));
    assert!(!is_marked("#!/bin/sh\n# git-sherp\n"));
    assert!(!is_marked("# Git-sherpa"));
}

#[test]
fn install_skips_existing_files_without_force() {
    let branches: Vec<String> = vec!["main".into()];
    let steps = install_with_config(
        false,
        &branches,
        HooksPresent { pre_commit: true, pre_push: false },
    );
    assert_eq!(steps.len(), 2);
    match &steps[0] {
        InstallStep::Skip { hook } => assert_eq!(*hook, HookName::PreCommit),
        other => panic!("unexpected: {:?}", other),
    }
    match &steps[1] {
        InstallStep::Write { hook, content, mode } => {
            assert_eq!(*hook, HookName::PrePush);
            assert_eq!(*content, pre_push_hook_content(&branches));
            assert_eq!(*mode, 0o755);
            assert_eq!(*mode, HOOK_MODE);
        }
        other => panic!("unexpected: {:?}", other),
    }
}

#[test]
fn install_with_force_overwrites_both() {
    let branches: Vec<String> = vec!["main".into(), "master".into()];
    let steps =
        install_with_config(true, &branches, HooksPresent { pre_commit: true, pre_push: true });
    assert_eq!(steps.len(), 2);
    match &steps[0] {
        InstallStep::Write { hook, content, .. } => {
            assert_eq!(*hook, HookName::PreCommit);
            assert_eq!(*content, hook_content());
        }
        other => panic!("unexpected: {:?}", other),
    }
    match &steps[1] {
        InstallStep::Write { hook, content, .. } => {
            assert_eq!(*hook, HookName::PrePush);
            assert!(content.contains("main|master"));
        }
        other => panic!("unexpected: {:?}", other),
    }
}

#[test]
fn install_writes_both_where_nothing_exists() {
    let steps =
        install_with_config(false, &[], HooksPresent { pre_commit: false, pre_push: false });
    assert!(matches!(steps[0], InstallStep::Write { hook: HookName::PreCommit, .. }));
    assert!(matches!(steps[1], InstallStep::Write { hook: HookName::PrePush, .. }));
}

#[test]
fn uninstall_removes_only_marked_files() {
    let files = HookFiles {
        pre_commit: Some("#!/bin/sh\nmake lint\n".to_string()),
        pre_push: Some(pre_push_hook_content(&["main".into()])),
    };
    let steps = uninstall(&files);
    assert_eq!(
        steps,
        vec![
            UninstallStep::KeepForeign { hook: HookName::PreCommit },
            UninstallStep::Remove { hook: HookName::PrePush },
        ]
    );
}

#[test]
fn uninstall_passes_over_missing_files() {
    let files = HookFiles { pre_commit: None, pre_push: Some(String::new()) };
    let steps = uninstall(&files);
    assert_eq!(
        steps,
        vec![
            UninstallStep::Absent { hook: HookName::PreCommit },
            UninstallStep::KeepForeign { hook: HookName::PrePush },
        ]
    );
}

#[test]
fn uninstall_removes_what_install_wrote() {
    let steps =
        install_with_config(true, &["main".into()], HooksPresent { pre_commit: false, pre_push: true });
    let mut files = HookFiles { pre_commit: None, pre_push: None };
    for step in steps {
        if let InstallStep::Write { hook, content, .. } = step {
            match hook {
                HookName::PreCommit => files.pre_commit = Some(content),
                HookName::PrePush => files.pre_push = Some(content),
            }
        }
    }
    assert_eq!(
        uninstall(&files),
        vec![
            UninstallStep::Remove { hook: HookName::PreCommit },
            UninstallStep::Remove { hook: HookName::PrePush },
        ]
    );
}

#[test]
fn hook_file_names() {
    assert_eq!(HookName::PreCommit.file_name(), "pre-commit");
    assert_eq!(HookName::PrePush.file_name(), "pre-push");
}

const FORCE_GUARD: &str = r#"#!/bin/sh
# git-sherpa

# Block force push
for arg in "$@"; do
    case "$arg" in
        --force|-f|--force-with-lease)
            echo "git-sherpa: force push is blocked."
            exit 1
            ;;
    esac
done

"#;

fn branch_test(words: &str) -> String {
    format!(
        r#"# Block push to protected branches
current_branch=$(git rev-parse --abbrev-ref HEAD)
case "$current_branch" in
    {})
        echo "git-sherpa: direct push to '$current_branch' is blocked. Use a pull request."
        exit 1
        ;;
esac

"#,
        words
    )
}

fn pre_push(names: &[&str]) -> String {
    let names: Vec<String> = names.iter().map(|n| n.to_string()).collect();
    pre_push_hook_content(&names)
}

#[test]
fn pre_push_without_branches_has_no_branch_test() {
    let expected = format!("{}exec git-sherpa check\n", FORCE_GUARD);
    assert_eq!(pre_push(&[]), expected);
    assert!(!expected.contains("current_branch"));
    assert!(!expected.contains("\n    )"));
}

#[test]
fn pre_push_writes_plain_names_as_they_are() {
    let expected =
        format!("{}{}exec git-sherpa check\n", FORCE_GUARD, branch_test("main|master"));
    assert_eq!(pre_push(&["main", "master"]), expected);
    let expected = format!(
        "{}{}exec git-sherpa check\n",
        FORCE_GUARD,
        branch_test("release/1.2|hot-fix_3|A.b")
    );
    assert_eq!(pre_push(&["release/1.2", "hot-fix_3", "A.b"]), expected);
}

#[test]
fn pre_push_writes_other_names_literally() {
    let expected = format!(
        "{}{}exec git-sherpa check\n",
        FORCE_GUARD,
        branch_test(r#"rel'*'|a' 'b|x')'y';'' 'echo|'$''('id')'|it\'s|'['a-z']'|b'\'s|'esac'|''|'é'"#)
    );
    assert_eq!(
        pre_push(&[
            "rel*",
            "a b",
            "x)y; echo",
            "$(id)",
            "it's",
            "[a-z]",
            "b\\s",
            "esac",
            "",
            "é"
        ]),
        expected
    );
}

#[test]
fn pre_push_leaves_out_names_that_no_script_can_hold() {
    assert_eq!(pre_push(&["ma\0in"]), pre_push(&[]));
    assert_eq!(pre_push(&["a\0", "main", "\0"]), pre_push(&["main"]));
}

#[test]
fn shell_words() {
    assert_eq!(write_shell_word("main").unwrap(), "main");
    assert_eq!(write_shell_word("feat/x-1_2.3").unwrap(), "feat/x-1_2.3");
    assert_eq!(write_shell_word("rel*").unwrap(), "rel'*'");
    assert_eq!(write_shell_word("?").unwrap(), "'?'");
    assert_eq!(write_shell_word("a|b").unwrap(), "a'|'b");
    assert_eq!(write_shell_word("'").unwrap(), "\\'");
    assert_eq!(write_shell_word("a\nb").unwrap(), "a'\n'b");
    assert_eq!(write_shell_word("\"$x\"").unwrap(), "'\"''$'x'\"'");
    assert_eq!(write_shell_word("").unwrap(), "''");
    assert_eq!(write_shell_word("esac").unwrap(), "'esac'");
    assert_eq!(write_shell_word("esac2").unwrap(), "esac2");
    assert_eq!(write_shell_word("Esac").unwrap(), "Esac");
    assert!(write_shell_word("a\0b").is_none());
    assert!(write_shell_word("\0").is_none());
}
