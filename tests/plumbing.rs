use dgc_review::error::{IoKind, JsonCategory};
use dgc_review::repo::{GitCommand, Repo};
use dgc_review::{test_repo, Error, CORS};

fn args(c: &GitCommand) -> Vec<&str> {
    c.args.iter().map(|a| a.as_str()).collect()
}

#[test]
fn error_messages() {
    assert_eq!(Error::FileAccess.message(), "Couldn't read file.");
    assert_eq!(Error::FileContent.message(), "Couldn't parse file content.");
    assert_eq!(Error::GenericIO.message(), "There was an IO error.");
    assert_eq!(Error::DuplicateReview.message(), "This review already exists.");
    assert_eq!(Error::Json.message(), "Could't parse JSON.");
}

#[test]
fn io_kinds_map_to_errors() {
    assert_eq!(Error::from(IoKind::NotFound), Error::FileAccess);
    assert_eq!(Error::from(IoKind::PermissionDenied), Error::FileAccess);
    assert_eq!(Error::from(IoKind::BrokenPipe), Error::FileAccess);
    assert_eq!(Error::from(IoKind::InvalidInput), Error::FileContent);
    assert_eq!(Error::from(IoKind::InvalidData), Error::FileContent);
    assert_eq!(Error::from(IoKind::UnexpectedEof), Error::FileContent);
    assert_eq!(Error::from(IoKind::Other), Error::GenericIO);
}

#[test]
fn json_categories_map_to_errors() {
    assert_eq!(Error::from(JsonCategory::Io), Error::FileAccess);
    assert_eq!(Error::from(JsonCategory::Syntax), Error::Json);
    assert_eq!(Error::from(JsonCategory::Data), Error::Json);
    assert_eq!(Error::from(JsonCategory::Eof), Error::Json);
}

#[test]
fn only_missing_files_are_recoverable() {
    assert!(Error::FileAccess.recoverable_by_init());
    assert!(!Error::FileContent.recoverable_by_init());
    assert!(!Error::Json.recoverable_by_init());
    assert!(!Error::DuplicateReview.recoverable_by_init());
    assert!(!Error::GenericIO.recoverable_by_init());
}

#[test]
fn test_repo_clones_when_missing() {
    let cmds = test_repo(false);
    assert_eq!(cmds.len(), 3);
    assert_eq!(cmds[0].dir, None);
    assert_eq!(args(&cmds[0]), vec!["clone", "https://github.com/openalcoholics/drinking-game-cards", "dgc"]);
    assert_eq!(cmds[1].dir.as_deref(), Some("dgc"));
    assert_eq!(args(&cmds[1]), vec!["reset"]);
    assert_eq!(args(&cmds[2]), vec!["checkout", "feature/i18n"]);
}

#[test]
fn test_repo_skips_clone_when_present() {
    let cmds = test_repo(true);
    assert_eq!(cmds.len(), 2);
    assert_eq!(args(&cmds[0]), vec!["reset"]);
    assert_eq!(args(&cmds[1]), vec!["checkout", "feature/i18n"]);
}

#[test]
fn repo_commands() {
    let repo = Repo::new("r".to_string(), "p".to_string(), "b".to_string());
    assert_eq!(repo.path(), "p");
    assert!(repo.setup(true).is_none());
    assert_eq!(args(&repo.clean_all()), vec!["clean", "-fdx"]);
    assert_eq!(args(&repo.stash()), vec!["stash"]);
    assert_eq!(args(&repo.stash_pop()), vec!["stash", "pop"]);
    assert_eq!(repo.stash_pop().dir.as_deref(), Some("p"));
}

#[test]
fn cors_headers() {
    let cors = CORS();
    assert_eq!(cors.name(), "Add CORS headers to requests");
    let h = cors.headers("https://example.org");
    let h: Vec<(&str, &str)> = h.iter().map(|(a, b)| (a.as_str(), b.as_str())).collect();
    assert_eq!(
        h,
        vec![
            ("Access-Control-Allow-Origin", "https://example.org"),
            ("Access-Control-Allow-Methods", "POST, GET, PATCH, OPTIONS"),
            ("Access-Control-Allow-Headers", "*"),
            ("Access-Control-Allow-Credentials", "true"),
        ]
    );
    assert_eq!(CORS::allowed_origin(None), "*");
    assert_eq!(CORS::allowed_origin(Some("x".to_string())), "x");
}
