use analytics_recorder::repository::{
    clone_arguments, entry_action, repository_name, CloneResult, EntryAction, EntryKind,
};

#[test]
fn repository_name_is_the_last_segment_without_its_suffix() {
    assert_eq!(repository_name("https://github.com/rust-lang/cargo.git"), "cargo");
    assert_eq!(repository_name("git@github.com:rust-lang/cargo.git"), "cargo");
    assert_eq!(repository_name("cargo.git"), "cargo");
    assert_eq!(repository_name("https://example.org/a/b/c/d.e.git"), "d.e");
    assert_eq!(repository_name("https://example.org/héllo/wörld.git"), "wörld");
}

#[test]
fn repository_name_falls_back_where_the_suffix_is_missing() {
    assert_eq!(repository_name("https://github.com/rust-lang/cargo"), "repository");
    assert_eq!(repository_name("https://github.com/rust-lang/cargo.git/"), "repository");
    assert_eq!(repository_name("https://github.com/rust-lang/cargo.GIT"), "repository");
    assert_eq!(repository_name(""), "repository");
    assert_eq!(repository_name("git"), "repository");
    assert_eq!(repository_name("a/git"), "repository");
}

#[test]
fn repository_name_may_be_empty() {
    assert_eq!(repository_name("https://github.com/rust-lang/.git"), "");
    assert_eq!(repository_name(".git"), "");
}

#[test]
fn clone_is_shallow_and_names_the_branch_if_there_is_one() {
    assert_eq!(
        clone_arguments("https://example.org/p.git", None, "/tmp/p"),
        vec!["clone", "--depth", "1", "https://example.org/p.git", "/tmp/p"]
    );
    assert_eq!(
        clone_arguments("https://example.org/p.git", Some("dev"), "/tmp/p"),
        vec!["clone", "--depth", "1", "-b", "dev", "https://example.org/p.git", "/tmp/p"]
    );
}

#[test]
fn listing_collects_python_files_only() {
    assert_eq!(entry_action(EntryKind::File, Some("py"), Some("main.py"), true), EntryAction::Collect);
    assert_eq!(entry_action(EntryKind::File, Some("py"), None, true), EntryAction::Collect);
    assert_eq!(entry_action(EntryKind::File, Some("py"), Some("main.py"), false), EntryAction::Skip);
    assert_eq!(entry_action(EntryKind::File, Some("rs"), Some("main.rs"), true), EntryAction::Skip);
    assert_eq!(entry_action(EntryKind::File, Some("PY"), Some("main.PY"), true), EntryAction::Skip);
    assert_eq!(entry_action(EntryKind::File, Some("pyc"), Some("main.pyc"), true), EntryAction::Skip);
    assert_eq!(entry_action(EntryKind::File, None, Some("Makefile"), true), EntryAction::Skip);
}

#[test]
fn listing_descends_into_every_directory_but_git() {
    assert_eq!(entry_action(EntryKind::Directory, None, Some("src"), true), EntryAction::Descend);
    assert_eq!(entry_action(EntryKind::Directory, Some("py"), Some("pkg.py"), true), EntryAction::Descend);
    assert_eq!(entry_action(EntryKind::Directory, None, Some(".git"), true), EntryAction::Skip);
    assert_eq!(entry_action(EntryKind::Directory, None, Some(".github"), true), EntryAction::Descend);
    assert_eq!(entry_action(EntryKind::Directory, None, None, false), EntryAction::Descend);
    assert_eq!(entry_action(EntryKind::Other, Some("py"), Some("link.py"), true), EntryAction::Skip);
}

#[test]
fn clone_reports() {
    let r = CloneResult::no_directory_selected();
    assert!(!r.success);
    assert_eq!(r.message, "No directory selected");
    assert!(r.files.is_empty());
    assert_eq!(r.path, "");

    let r = CloneResult::already_exists("/tmp/p");
    assert!(!r.success);
    assert_eq!(r.message, "Directory /tmp/p already exists");
    assert!(r.files.is_empty());
    assert_eq!(r.path, "/tmp/p");

    let r = CloneResult::failed("fatal: repository not found", "/tmp/p");
    assert!(!r.success);
    assert_eq!(r.message, "fatal: repository not found");
    assert!(r.files.is_empty());
    assert_eq!(r.path, "/tmp/p");

    let r = CloneResult::cloned(vec!["/tmp/p/a.py".to_string(), "/tmp/p/b/c.py".to_string()], "/tmp/p");
    assert!(r.success);
    assert_eq!(r.message, "Repository cloned successfully to /tmp/p");
    assert_eq!(r.files, vec!["/tmp/p/a.py", "/tmp/p/b/c.py"]);
    assert_eq!(r.path, "/tmp/p");
}
