//! `init` and the primary exclude file: created, idempotent, preserving.

use git_autosnap::fsio::{read_file_if_exists, write_file};
use git_autosnap::repo::{add_to_git_exclude, init_autosnap, ExcludeOutcome};

fn root_string(td: &tempfile::TempDir) -> String {
    td.path().to_str().unwrap().to_string()
}

fn read_exclude(root: &String) -> String {
    let path = format!("{}/.git/info/exclude", root);
    let bytes = read_file_if_exists(&path, 1 << 20)
        .expect("read exclude")
        .expect("exclude file exists");
    String::from_utf8(bytes).expect("utf8 exclude")
}

#[test]
fn test_init_adds_to_git_exclude() {
    let temp_dir = tempfile::TempDir::new().unwrap();
    let root = root_string(&temp_dir);
    git2::Repository::init(temp_dir.path()).unwrap();

    init_autosnap(&root).expect("init");

    assert!(temp_dir.path().join(".autosnap").exists());
    let exclude_path = temp_dir.path().join(".git").join("info").join("exclude");
    assert!(exclude_path.exists(), ".git/info/exclude should exist");

    let contents = read_exclude(&root);
    assert!(
        contents.lines().any(|line| line.trim() == ".autosnap"),
        ".git/info/exclude should contain .autosnap pattern"
    );
}

#[test]
fn test_init_idempotent_for_exclude() {
    let temp_dir = tempfile::TempDir::new().unwrap();
    let root = root_string(&temp_dir);
    git2::Repository::init(temp_dir.path()).unwrap();

    for _ in 0..2 {
        init_autosnap(&root).expect("init");
    }

    let contents = read_exclude(&root);
    let count = contents
        .lines()
        .filter(|line| line.trim() == ".autosnap")
        .count();
    assert_eq!(
        count, 1,
        ".autosnap should appear exactly once in .git/info/exclude"
    );
}

#[test]
fn test_init_preserves_existing_exclude_entries() {
    let temp_dir = tempfile::TempDir::new().unwrap();
    let root = root_string(&temp_dir);
    git2::Repository::init(temp_dir.path()).unwrap();

    // Seed the exclude file with existing entries (the first init makes
    // sure .git/info exists), then re-run the edit on the seeded file.
    init_autosnap(&root).expect("first init");
    let exclude_path = format!("{}/.git/info/exclude", root);
    write_file(&exclude_path, &b"*.log\n.DS_Store\n".to_vec()).expect("seed exclude");

    init_autosnap(&root).expect("init");

    let contents = read_exclude(&root);
    assert!(
        contents.lines().any(|line| line.trim() == "*.log"),
        "Existing *.log entry should be preserved"
    );
    assert!(
        contents.lines().any(|line| line.trim() == ".DS_Store"),
        "Existing .DS_Store entry should be preserved"
    );
    assert!(
        contents.lines().any(|line| line.trim() == ".autosnap"),
        ".autosnap should be added"
    );
}

#[test]
fn test_init_handles_missing_git_info_dir() {
    let temp_dir = tempfile::TempDir::new().unwrap();
    let root = root_string(&temp_dir);
    // Initialize without templates so .git/info is not pre-created.
    let mut opts = git2::RepositoryInitOptions::new();
    opts.external_template(false);
    git2::Repository::init_opts(temp_dir.path(), &opts).unwrap();

    init_autosnap(&root).expect("init");

    let info_dir = temp_dir.path().join(".git").join("info");
    assert!(info_dir.exists(), ".git/info directory should be created");
    let exclude_path = info_dir.join("exclude");
    assert!(exclude_path.exists(), ".git/info/exclude should be created");

    let contents = read_exclude(&root);
    assert!(
        contents.lines().any(|line| line.trim() == ".autosnap"),
        ".autosnap should be in newly created exclude file"
    );
}

#[test]
fn test_init_handles_non_git_directory() {
    let temp_dir = tempfile::TempDir::new().unwrap();
    let root = root_string(&temp_dir);

    // No primary repository here: the exclude edit must be skipped.
    init_autosnap(&root).expect("init outside a repository");

    let exclude_path = temp_dir
        .path()
        .join(".git")
        .join("info")
        .join("exclude");
    assert!(
        !exclude_path.exists(),
        ".git/info/exclude should not be created in non-git directory"
    );
}

#[test]
fn unterminated_exclude_gets_a_separating_newline() {
    let temp_dir = tempfile::TempDir::new().unwrap();
    let root = root_string(&temp_dir);
    git2::Repository::init(temp_dir.path()).unwrap();

    init_autosnap(&root).expect("first init");
    let exclude_path = format!("{}/.git/info/exclude", root);
    write_file(&exclude_path, &b"*.swp".to_vec()).expect("seed unterminated");

    init_autosnap(&root).expect("init");

    let contents = read_exclude(&root);
    assert_eq!(contents, "*.swp\n.autosnap\n");
}

#[test]
fn exclude_edit_reports_its_outcome() {
    // Outside a repository: skipped, nothing created.
    let plain = tempfile::TempDir::new().unwrap();
    let plain_root = root_string(&plain);
    assert_eq!(
        add_to_git_exclude(&plain_root).expect("edit"),
        ExcludeOutcome::SkippedOutsideRepository
    );
    assert!(!plain.path().join(".git").exists());

    // Inside a repository: first applied, then already satisfied.
    let temp_dir = tempfile::TempDir::new().unwrap();
    let root = root_string(&temp_dir);
    git2::Repository::init(temp_dir.path()).unwrap();
    assert_eq!(add_to_git_exclude(&root).expect("edit"), ExcludeOutcome::Updated);
    assert_eq!(
        add_to_git_exclude(&root).expect("edit"),
        ExcludeOutcome::AlreadyCovered
    );
}
