//! The snapshot engine end to end: suppression, messages, ignore rules.

use git_autosnap::fsio::write_file;
use git_autosnap::repo::init_autosnap;
use git_autosnap::snapshot::snapshot_once;
use git_autosnap::AutosnapError;

fn root_string(td: &tempfile::TempDir) -> String {
    td.path().to_str().unwrap().to_string()
}

fn aux_repo(td: &tempfile::TempDir) -> git2::Repository {
    git2::Repository::open(td.path().join(".autosnap")).expect("open aux store")
}

fn head_subject(repo: &git2::Repository) -> String {
    let commit = repo.head().unwrap().peel_to_commit().unwrap();
    let msg = commit.message().unwrap_or("");
    msg.lines().next().unwrap_or("").to_string()
}

fn tree_names(repo: &git2::Repository) -> Vec<String> {
    let tree = repo.head().unwrap().peel_to_commit().unwrap().tree().unwrap();
    let mut names = Vec::new();
    for entry in tree.iter() {
        if let Ok(n) = entry.name() {
            names.push(n.to_string());
        }
    }
    names
}

fn is_digit(b: u8) -> bool {
    (48..=57).contains(&b)
}

/// The subject shape every snapshot carries:
/// `AUTOSNAP[<branch>] YYYY-MM-DDTHH:MM:` and onward.
fn matches_autosnap(subject: &str) -> bool {
    let b = subject.as_bytes();
    if !subject.starts_with("AUTOSNAP[") {
        return false;
    }
    let close = match b.iter().skip(9).position(|&c| c == b']') {
        Some(off) => 9 + off,
        None => return false,
    };
    if close == 9 || b.len() < close + 2 + 17 {
        return false;
    }
    if b[close + 1] != b' ' {
        return false;
    }
    let t = &b[close + 2..];
    is_digit(t[0]) && is_digit(t[1]) && is_digit(t[2]) && is_digit(t[3]) && t[4] == b'-'
        && is_digit(t[5]) && is_digit(t[6]) && t[7] == b'-' && is_digit(t[8]) && is_digit(t[9])
        && t[10] == b'T' && is_digit(t[11]) && is_digit(t[12]) && t[13] == b':'
        && is_digit(t[14]) && is_digit(t[15]) && t[16] == b':'
}

#[test]
fn empty_repository_snapshot_is_suppressed() {
    let td = tempfile::tempdir().unwrap();
    let root = root_string(&td);
    git2::Repository::init(td.path()).unwrap();
    init_autosnap(&root).expect("init");

    // Nothing to record: no commit, nothing printed.
    let out = snapshot_once(&root, None).expect("once");
    assert!(out.is_none(), "empty repository must yield no snapshot");

    // Create a file; the next snapshot emits a short id and its tree
    // lists exactly that file.
    write_file(&format!("{}/a.txt", root), &b"hello\n".to_vec()).expect("write");
    let id = snapshot_once(&root, None).expect("once").expect("id");
    assert_eq!(id.len(), 7, "short identifier expected, got {id}");

    let repo = aux_repo(&td);
    assert_eq!(tree_names(&repo), vec!["a.txt".to_string()]);
}

#[test]
fn snapshot_commit_message_and_contents() {
    let td = tempfile::tempdir().unwrap();
    let root = root_string(&td);
    git2::Repository::init(td.path()).unwrap();
    init_autosnap(&root).expect("init");
    write_file(&format!("{}/a.txt", root), &b"hello\n".to_vec()).expect("write");

    snapshot_once(&root, None).expect("once").expect("id");

    let repo = aux_repo(&td);
    let subject = head_subject(&repo);
    assert!(
        matches_autosnap(&subject) && subject.starts_with("AUTOSNAP["),
        "bad subject: {subject}"
    );
    let listing = tree_names(&repo);
    assert!(
        listing.contains(&"a.txt".to_string()),
        "missing a.txt in tree: {listing:?}"
    );
}

#[test]
fn unchanged_tree_suppresses_second_snapshot() {
    let td = tempfile::tempdir().unwrap();
    let root = root_string(&td);
    git2::Repository::init(td.path()).unwrap();
    init_autosnap(&root).expect("init");
    write_file(&format!("{}/a.txt", root), &b"hello\n".to_vec()).expect("write");

    let first = snapshot_once(&root, None).expect("once");
    assert!(first.is_some());
    // Same contents: at most one commit, the second call prints nothing.
    let second = snapshot_once(&root, None).expect("once");
    assert!(second.is_none(), "unchanged tree must suppress the commit");

    let repo = aux_repo(&td);
    let mut walk = repo.revwalk().unwrap();
    walk.push_head().unwrap();
    assert_eq!(walk.count(), 1);
}

#[test]
fn custom_message_is_appended() {
    let td = tempfile::tempdir().unwrap();
    let root = root_string(&td);
    git2::Repository::init(td.path()).unwrap();
    init_autosnap(&root).expect("init");
    write_file(&format!("{}/a.txt", root), &b"x\n".to_vec()).expect("write");

    let note = "before refactor".to_string();
    snapshot_once(&root, Some(&note)).expect("once").expect("id");
    let subject = head_subject(&aux_repo(&td));
    assert!(matches_autosnap(&subject), "bad subject: {subject}");
    assert!(subject.ends_with(": before refactor"), "subject: {subject}");
}

#[test]
fn earlier_snapshot_keeps_original_bytes() {
    let td = tempfile::tempdir().unwrap();
    let root = root_string(&td);
    git2::Repository::init(td.path()).unwrap();
    init_autosnap(&root).expect("init");

    write_file(&format!("{}/test.txt", root), &b"original content\n".to_vec()).expect("write");
    snapshot_once(&root, None).expect("once").expect("first id");
    write_file(&format!("{}/test.txt", root), &b"modified content\n".to_vec()).expect("write");
    snapshot_once(&root, None).expect("once").expect("second id");

    // The first snapshot's tree still holds the original bytes.
    let repo = aux_repo(&td);
    let head = repo.head().unwrap().peel_to_commit().unwrap();
    let parent = head.parent(0).unwrap();
    let entry = parent.tree().unwrap().get_name("test.txt").unwrap().id();
    let blob = repo.find_blob(entry).unwrap();
    assert_eq!(blob.content(), b"original content\n");
}

#[test]
fn ignored_files_never_enter_the_tree() {
    let td = tempfile::tempdir().unwrap();
    let root = root_string(&td);
    git2::Repository::init(td.path()).unwrap();
    init_autosnap(&root).expect("init");

    write_file(&format!("{}/.gitignore", root), &b"*.tmp\n".to_vec()).expect("write");
    write_file(&format!("{}/tracked.txt", root), &b"tracked content\n".to_vec()).expect("write");
    write_file(&format!("{}/ignored.tmp", root), &b"ignored content\n".to_vec()).expect("write");

    snapshot_once(&root, None).expect("once").expect("id");

    let listing = tree_names(&aux_repo(&td));
    assert!(listing.contains(&"tracked.txt".to_string()));
    assert!(listing.contains(&".gitignore".to_string()));
    assert!(
        !listing.contains(&"ignored.tmp".to_string()),
        "ignored file leaked into the snapshot: {listing:?}"
    );
}

#[test]
fn snapshot_without_store_reports_not_initialized() {
    let td = tempfile::tempdir().unwrap();
    let root = root_string(&td);
    git2::Repository::init(td.path()).unwrap();

    match snapshot_once(&root, None) {
        Err(AutosnapError::NotInitialized) => {}
        other => panic!("expected the missing-store error, got ok={}", other.is_ok()),
    }
    let msg = AutosnapError::NotInitialized.message();
    assert_eq!(msg, ".autosnap is missing; run `git autosnap init` first");
}
