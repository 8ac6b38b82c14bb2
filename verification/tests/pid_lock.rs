//! The process singleton: PID-file lock exclusivity and the status probe.

use git_autosnap::daemon::{stop, StopOutcome};
use git_autosnap::fsio::write_file;
use git_autosnap::process::{acquire_lock, pid_file, status};
use git_autosnap::AutosnapError;

fn root_string(td: &tempfile::TempDir) -> String {
    td.path().to_str().unwrap().to_string()
}

#[test]
fn pidfile_lock_is_exclusive() {
    let td = tempfile::tempdir().unwrap();
    let root = root_string(&td);

    // First lock succeeds
    let guard = acquire_lock(&root).expect("first lock");
    assert!(std::path::Path::new(&pid_file(&root)).exists());

    // Second lock fails while first is held
    match acquire_lock(&root) {
        Ok(_) => panic!("second lock should fail"),
        Err(e) => {
            let msg = e.message();
            assert!(msg.contains("already running"));
        }
    }

    // Release the first; a subsequent lock should succeed again
    guard.release();
    let guard2 = acquire_lock(&root).expect("relock after drop");
    guard2.release();
}

#[test]
fn status_is_running_iff_pid_alive() {
    let td = tempfile::tempdir().unwrap();
    let root = root_string(&td);

    // No PID file: stopped.
    assert_eq!(status(&root).expect("status"), false);

    // Our own pid in the file: running (the probe hits this process).
    let guard = acquire_lock(&root).expect("lock");
    assert_eq!(status(&root).expect("status"), true);

    // Released and removed: stopped again.
    guard.release();
    assert_eq!(status(&root).expect("status"), false);
}

#[test]
fn stale_pid_reads_as_stopped() {
    let td = tempfile::tempdir().unwrap();
    let root = root_string(&td);
    git_autosnap::repo::init_autosnap(&root).ok();
    // The largest pid the parser accepts never names a live process here.
    write_file(&pid_file(&root), &b"2147483647\n".to_vec()).expect("write pidfile");
    assert_eq!(status(&root).expect("status"), false);
}

#[test]
fn corrupt_pidfile_is_an_error() {
    let td = tempfile::tempdir().unwrap();
    let root = root_string(&td);
    git_autosnap::repo::init_autosnap(&root).ok();
    write_file(&pid_file(&root), &b"invalid-pid\n".to_vec()).expect("write pidfile");
    match status(&root) {
        Err(AutosnapError::InvalidPid { text }) => {
            assert_eq!(text, "invalid-pid");
        }
        other => panic!("expected an invalid pid error, got {:?}", other.is_ok()),
    }
}

#[test]
fn stop_without_pidfile_is_already_stopped() {
    let td = tempfile::tempdir().unwrap();
    let root = root_string(&td);
    match stop(&root) {
        Ok(StopOutcome::AlreadyStopped) => {}
        other => panic!("expected already stopped, got {:?}", other),
    }
}
