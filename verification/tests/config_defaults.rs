use git_sherpa::config::{default_config, init, scripts_readme, HooksConfig, SensitiveConfig};
use git_sherpa::error::ConfigError;
use git_sherpa::sensitive::default_patterns;

#[test]
fn default_config_values() {
    let cfg = default_config();
    assert_eq!(cfg.commits.convention, "conventional");
    assert!(cfg.checks.require_clean_worktree);
    assert!(cfg.checks.require_upstream);
    assert!(!cfg.branches.pattern.is_empty());
    assert!(!cfg.sensitive.patterns.is_empty());
    assert!(cfg.hooks.protected_branches.contains(&"main".to_string()));
}

#[test]
fn default_config_has_exact_values() {
    let cfg = default_config();
    assert_eq!(cfg.branches.pattern, "^(feat|fix|chore|docs|refactor)/[a-z0-9-]+$");
    assert_eq!(cfg.hooks.protected_branches, vec!["main", "master"]);
    assert_eq!(cfg.sensitive.patterns, default_patterns());
}

#[test]
fn default_patterns_are_the_fixed_list() {
    assert_eq!(
        default_patterns(),
        vec![
            ".env",
            ".env.*",
            "*.pem",
            "*.key",
            "**/id_rsa",
            "**/id_rsa.pub",
            "**/credentials.json",
            "**/*.p12",
            "**/*.pfx",
        ]
    );
}

#[test]
fn section_defaults_match_the_whole_default() {
    assert_eq!(SensitiveConfig::default().patterns, default_config().sensitive.patterns);
    assert_eq!(HooksConfig::default().protected_branches, vec!["main", "master"]);
}

#[test]
fn init_writes_defaults_where_nothing_exists() {
    let plan = init(".gitsherpa.toml", false).unwrap();
    assert_eq!(plan.config.commits.convention, "conventional");
    assert_eq!(plan.scripts_dir, ".gitsherpa");
    assert_eq!(plan.readme, scripts_readme());
    assert_eq!(
        plan.readme,
        "# git-sherpa scripts\n\nAdd custom hooks or scripts for your repo here.\n"
    );
}

#[test]
fn init_refuses_an_existing_config() {
    match init("conf/policy.toml", true) {
        Err(e @ ConfigError::AlreadyExists { .. }) => {
            assert_eq!(e.message(), "Config already exists at conf/policy.toml");
        }
        other => panic!("unexpected: {:?}", other),
    }
}
