use git_sherpa::sensitive::{check_sensitive_files, default_patterns, keep_matched, match_each};

#[test]
fn detects_env_files() {
    let staged: Vec<String> = vec![".env".into(), ".env.local".into(), "src/main.rs".into()];
    let patterns = default_patterns();
    let found = check_sensitive_files(&staged, &patterns);
    assert_eq!(found, vec![".env", ".env.local"]);
}

#[test]
fn detects_key_files() {
    let staged: Vec<String> = vec!["server.pem".into(), "key.key".into(), "readme.md".into()];
    let patterns = default_patterns();
    let found = check_sensitive_files(&staged, &patterns);
    assert_eq!(found, vec!["server.pem", "key.key"]);
}

#[test]
fn no_false_positives() {
    let staged: Vec<String> = vec!["src/main.rs".into(), "Cargo.toml".into()];
    let patterns = default_patterns();
    let found = check_sensitive_files(&staged, &patterns);
    assert!(found.is_empty());
}

#[test]
fn keep_matched_follows_the_answers() {
    let staged: Vec<String> = vec!["a".into(), "b".into(), "c".into(), "b".into()];
    assert_eq!(keep_matched(&staged, &[true, false, true, true]), vec!["a", "c", "b"]);
    assert_eq!(keep_matched(&staged, &[false, false, false, false]), Vec::<String>::new());
    assert_eq!(keep_matched(&staged, &[true, true, true, true]), staged);
    assert_eq!(keep_matched(&staged, &[false, true, false, false]), vec!["b"]);
    assert!(keep_matched(&[], &[]).is_empty());
}

#[test]
fn match_each_answers_for_every_path() {
    let staged: Vec<String> =
        vec![".env".into(), "src/.env".into(), "a/b/id_rsa".into(), "id_rsa".into(), "x.pem".into(), "d/x.pem".into()];
    let patterns = default_patterns();
    let hits = match_each(&staged, &patterns);
    assert_eq!(hits, vec![true, false, true, true, true, false]);
    assert_eq!(keep_matched(&staged, &hits), check_sensitive_files(&staged, &patterns));
    assert_eq!(match_each(&staged, &[]), vec![false; 6]);
    assert!(match_each(&[], &patterns).is_empty());
}

#[test]
fn a_path_matched_by_several_patterns_is_kept_once() {
    let staged: Vec<String> = vec![".env.key".into(), "plain".into(), ".env.key".into()];
    let patterns: Vec<String> = vec![".env.*".into(), "*.key".into(), ".env.key".into()];
    assert_eq!(check_sensitive_files(&staged, &patterns), vec![".env.key", ".env.key"]);
}
