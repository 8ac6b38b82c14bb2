//! The compaction engine on real histories: baseline, head tree,
//! idempotence.

use git_autosnap::compact::compact;
use git_autosnap::repo::init_autosnap;

fn root_string(td: &tempfile::TempDir) -> String {
    td.path().to_str().unwrap().to_string()
}

fn aux_repo(td: &tempfile::TempDir) -> git2::Repository {
    git2::Repository::open(td.path().join(".autosnap")).expect("open aux store")
}

fn now_epoch() -> i64 {
    std::time::SystemTime::now()
        .duration_since(std::time::UNIX_EPOCH)
        .unwrap()
        .as_secs() as i64
}

/// One synthetic snapshot in the auxiliary store: `state.txt` holding
/// `content`, committed `age_days` days ago.
fn aux_commit(repo: &git2::Repository, content: &str, age_days: i64) -> git2::Oid {
    let blob = repo.blob(content.as_bytes()).unwrap();
    let mut tb = repo.treebuilder(None).unwrap();
    tb.insert("state.txt", blob, 0o100644).unwrap();
    let tree = repo.find_tree(tb.write().unwrap()).unwrap();
    let when = git2::Time::new(now_epoch() - age_days * 86400, 0);
    let sig = git2::Signature::new("tester", "tester@example.com", &when).unwrap();
    let parent = repo.head().ok().and_then(|h| h.peel_to_commit().ok());
    let parents: Vec<&git2::Commit> = parent.iter().collect();
    repo.commit(Some("HEAD"), &sig, &sig, "snap", &tree, &parents)
        .unwrap()
}

fn head_state(repo: &git2::Repository) -> String {
    let tree = repo.head().unwrap().peel_to_commit().unwrap().tree().unwrap();
    let id = tree.get_name("state.txt").unwrap().id();
    String::from_utf8(repo.find_blob(id).unwrap().content().to_vec()).unwrap()
}

fn history(repo: &git2::Repository) -> Vec<String> {
    let mut walk = repo.revwalk().unwrap();
    walk.push_head().unwrap();
    walk.map(|oid| {
        repo.find_commit(oid.unwrap())
            .unwrap()
            .message()
            .unwrap_or("")
            .to_string()
    })
    .collect()
}

fn baseline_count(repo: &git2::Repository) -> usize {
    history(repo)
        .iter()
        .filter(|m| m.as_str() == "AUTOSNAP_COMPACT_BASELINE")
        .count()
}

fn aged_history(td: &tempfile::TempDir, root: &String) {
    git2::Repository::init(td.path()).unwrap();
    init_autosnap(root).expect("init");
    let aux = aux_repo(td);
    for (content, age) in [
        ("state 1\n", 120),
        ("state 2\n", 80),
        ("state 3\n", 40),
        ("state 4\n", 10),
        ("latest\n", 2),
    ] {
        aux_commit(&aux, content, age);
    }
}

#[test]
fn compact_reduces_commit_count_and_preserves_head_tree() {
    let td = tempfile::tempdir().unwrap();
    let root = root_string(&td);
    aged_history(&td, &root);

    let result = compact(&root, 30).expect("compact");
    assert_eq!(result.before_commits, 5);
    assert!(result.rewritten);
    assert!(result.baseline_created);
    let after = result.after_commits;
    assert!(
        after < 5,
        "expected commit count to decrease: before=5 after={after}"
    );

    let aux = aux_repo(&td);
    assert_eq!(baseline_count(&aux), 1, "baseline commit must be unique");
    assert_eq!(
        head_state(&aux),
        "latest\n",
        "HEAD tree must remain latest state"
    );
}

#[test]
fn recompact_with_existing_baseline_keeps_single_baseline() {
    let td = tempfile::tempdir().unwrap();
    let root = root_string(&td);
    aged_history(&td, &root);

    compact(&root, 30).expect("first compact");
    let second = compact(&root, 7).expect("second compact");
    assert!(second.rewritten);

    let aux = aux_repo(&td);
    assert_eq!(
        baseline_count(&aux),
        1,
        "baseline count after second compact"
    );
    assert_eq!(head_state(&aux), "latest\n", "HEAD must stay at latest content");
    let count_after_second = history(&aux).len();

    let third = compact(&root, 7).expect("third compact");
    assert_eq!(
        third.after_commits, count_after_second,
        "re-running compact should be stable"
    );
    assert_eq!(
        baseline_count(&aux_repo(&td)),
        1,
        "baseline count after third compact"
    );
    assert_eq!(head_state(&aux_repo(&td)), "latest\n");
}

#[test]
fn compact_with_same_window_is_idempotent() {
    let td = tempfile::tempdir().unwrap();
    let root = root_string(&td);
    aged_history(&td, &root);

    let first = compact(&root, 30).expect("first compact");
    let head_after_first = head_state(&aux_repo(&td));
    let count_after_first = history(&aux_repo(&td)).len();
    assert_eq!(first.after_commits, count_after_first);

    let second = compact(&root, 30).expect("second compact");
    assert_eq!(second.after_commits, count_after_first);
    assert_eq!(head_state(&aux_repo(&td)), head_after_first);
    assert_eq!(baseline_count(&aux_repo(&td)), 1);
}

#[test]
fn compact_without_old_commits_reports_no_rewrite() {
    let td = tempfile::tempdir().unwrap();
    let root = root_string(&td);
    git2::Repository::init(td.path()).unwrap();
    init_autosnap(&root).expect("init");
    let aux = aux_repo(&td);
    aux_commit(&aux, "young\n", 1);

    let result = compact(&root, 30).expect("compact");
    assert_eq!(result.before_commits, 1);
    assert_eq!(result.after_commits, 1);
    assert!(!result.rewritten);
    assert!(!result.baseline_created);
}

#[test]
fn compact_on_missing_store_is_the_zero_result() {
    let td = tempfile::tempdir().unwrap();
    let root = root_string(&td);
    let result = compact(&root, 30).expect("compact");
    assert_eq!(result.before_commits, 0);
    assert_eq!(result.after_commits, 0);
    assert!(!result.rewritten);
    assert!(!result.baseline_created);
}

#[test]
fn baseline_preserves_source_identity_and_time() {
    let td = tempfile::tempdir().unwrap();
    let root = root_string(&td);
    aged_history(&td, &root);
    let source_time = now_epoch() - 40 * 86400;

    compact(&root, 30).expect("compact");

    let aux = aux_repo(&td);
    let mut walk = aux.revwalk().unwrap();
    walk.push_head().unwrap();
    let mut baseline = None;
    for oid in walk {
        let c = aux.find_commit(oid.unwrap()).unwrap();
        if c.message().ok() == Some("AUTOSNAP_COMPACT_BASELINE") {
            baseline = Some((
                c.author().name().unwrap_or("").to_string(),
                c.time().seconds(),
                c.parent_count(),
            ));
        }
    }
    let (name, when, parents) = baseline.expect("baseline present");
    assert_eq!(name, "tester");
    // The clocks of the test and of the engine may differ by a moment.
    assert!((when - source_time).abs() <= 60, "baseline keeps its source's time");
    assert_eq!(parents, 0, "the baseline is parentless");
}
