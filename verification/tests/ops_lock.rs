//! The ops lock: exclusive, blocking, released on every exit path.

use git_autosnap::compact::compact;
use git_autosnap::fsio::write_file;
use git_autosnap::ops_lock::acquire_ops_lock;
use git_autosnap::repo::init_autosnap;
use git_autosnap::snapshot::snapshot_once;

fn root_string(td: &tempfile::TempDir) -> String {
    td.path().to_str().unwrap().to_string()
}

#[test]
fn lock_blocks_until_released() {
    let tmp = tempfile::tempdir().expect("tempdir");
    let root = root_string(&tmp);
    let guard = acquire_ops_lock(&root).expect("first lock");

    let rt = tokio::runtime::Builder::new_multi_thread()
        .worker_threads(2)
        .enable_all()
        .build()
        .expect("runtime");
    let (tx, rx) = std::sync::mpsc::channel();
    let repo = root.clone();
    let handle = rt.spawn_blocking(move || {
        let second = acquire_ops_lock(&repo).expect("second lock");
        tx.send(()).expect("send");
        second.release();
    });

    // The second lock should still be blocked.
    assert!(rx
        .recv_timeout(std::time::Duration::from_millis(100))
        .is_err());

    guard.release();

    // After releasing the first lock, the second must proceed.
    rx.recv_timeout(std::time::Duration::from_secs(2))
        .expect("second lock must proceed after release");
    rt.block_on(handle).expect("thread join");
}

#[test]
fn snapshot_waits_for_existing_ops_lock() {
    let tmp = tempfile::tempdir().expect("tempdir");
    let root = root_string(&tmp);
    git2::Repository::init(tmp.path()).expect("git init");
    init_autosnap(&root).expect("init");
    write_file(&format!("{}/file.txt", root), &b"initial\n".to_vec()).expect("write");

    // Hold the ops lock for two seconds on another thread.
    let guard = acquire_ops_lock(&root).expect("hold lock");
    let rt = tokio::runtime::Builder::new_multi_thread()
        .worker_threads(2)
        .enable_all()
        .build()
        .expect("runtime");
    let holder = rt.spawn_blocking(move || {
        // Hold for two seconds: wait on a channel nobody sends on.
        let (_tx, rx) = std::sync::mpsc::channel::<()>();
        let _ = rx.recv_timeout(std::time::Duration::from_secs(2));
        guard.release();
    });

    let started = std::time::Instant::now();
    let out = snapshot_once(&root, None).expect("snapshot succeeds after the lock frees");
    let elapsed = started.elapsed().as_millis();
    assert!(out.is_some(), "a changed tree must produce a commit");
    assert!(
        elapsed >= 1500,
        "snapshot should wait for lock (elapsed={elapsed}ms)"
    );
    rt.block_on(holder).expect("join");
}

#[test]
fn compact_waits_for_existing_ops_lock() {
    let tmp = tempfile::tempdir().expect("tempdir");
    let root = root_string(&tmp);
    git2::Repository::init(tmp.path()).expect("git init");
    init_autosnap(&root).expect("init");
    write_file(&format!("{}/file.txt", root), &b"initial\n".to_vec()).expect("write");
    snapshot_once(&root, None).expect("seed snapshot");

    let guard = acquire_ops_lock(&root).expect("hold lock");
    let rt = tokio::runtime::Builder::new_multi_thread()
        .worker_threads(2)
        .enable_all()
        .build()
        .expect("runtime");
    let holder = rt.spawn_blocking(move || {
        let (_tx, rx) = std::sync::mpsc::channel::<()>();
        let _ = rx.recv_timeout(std::time::Duration::from_secs(2));
        guard.release();
    });

    let started = std::time::Instant::now();
    let result = compact(&root, 30).expect("compact succeeds after the lock frees");
    let elapsed = started.elapsed().as_millis();
    assert_eq!(result.before_commits, 1);
    assert!(
        elapsed >= 1500,
        "compact should wait for lock (elapsed={elapsed}ms)"
    );
    rt.block_on(holder).expect("join");
}
