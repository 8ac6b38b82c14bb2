//! The watcher state machine: elevation precedence and batch reactions.

use git_autosnap::watcher::{
    await_binary_update_and_maybe_exec, binary_changed, elevate_exit_action,
    handle_ignore_file_updates, handle_signals, load_exit_action, poll_binary_change, BinarySig,
    ExitAction, ExitActionCell, SignalEffect, WatcherCore, WatcherSignal,
};

#[test]
fn exit_action_elevation_respects_precedence() {
    let mut a = ExitActionCell::new();

    // Elevate from the idle action to Snapshot
    elevate_exit_action(&mut a, ExitAction::Snapshot);
    assert_eq!(load_exit_action(&a), ExitAction::Snapshot);

    // Attempt to lower -> should remain Snapshot
    elevate_exit_action(&mut a, ExitAction::Idle);
    assert_eq!(load_exit_action(&a), ExitAction::Snapshot);

    // Elevate to ReloadExec
    elevate_exit_action(&mut a, ExitAction::ReloadExec);
    assert_eq!(load_exit_action(&a), ExitAction::ReloadExec);

    // Elevate to BinaryUpdateExec (highest)
    elevate_exit_action(&mut a, ExitAction::BinaryUpdateExec);
    assert_eq!(load_exit_action(&a), ExitAction::BinaryUpdateExec);

    // Further attempts to lower must be ignored
    elevate_exit_action(&mut a, ExitAction::Snapshot);
    assert_eq!(load_exit_action(&a), ExitAction::BinaryUpdateExec);
}

fn start_effect() -> SignalEffect {
    SignalEffect {
        action: ExitAction::Idle,
        in_progress: false,
        quit: false,
        spawn_snapshot: false,
        start_poller: false,
    }
}

#[test]
fn terminate_elevates_and_quits() {
    let sigs = vec![WatcherSignal::Terminate, WatcherSignal::User1];
    let eff = handle_signals(&sigs, start_effect());
    assert!(eff.quit);
    assert_eq!(eff.action, ExitAction::Snapshot);
    // The signal after the stop is not consumed.
    assert!(!eff.spawn_snapshot);
}

#[test]
fn user1_spawns_once_per_batch() {
    let sigs = vec![WatcherSignal::User1, WatcherSignal::User1];
    let eff = handle_signals(&sigs, start_effect());
    assert!(!eff.quit);
    assert!(eff.spawn_snapshot);
    assert!(eff.in_progress);
    // A user-1 while a snapshot is in flight is dropped.
    let mut busy = start_effect();
    busy.in_progress = true;
    let eff2 = handle_signals(&vec![WatcherSignal::User1], busy);
    assert!(!eff2.spawn_snapshot);
}

#[test]
fn user2_starts_poller_and_quits() {
    let eff = handle_signals(&vec![WatcherSignal::User2], start_effect());
    assert!(eff.quit);
    assert!(eff.start_poller);
    assert_eq!(eff.action, ExitAction::BinaryUpdateExec);
}

#[test]
fn hangup_is_ignored() {
    let eff = handle_signals(&vec![WatcherSignal::Hangup], start_effect());
    assert!(!eff.quit);
    assert_eq!(eff.action, ExitAction::Idle);
    assert!(!eff.spawn_snapshot);
}

#[test]
fn ignore_file_edit_quits_with_reload() {
    let mut core = WatcherCore::new();
    let paths = vec![".gitignore".to_string()];
    let ignores = vec![".gitignore".to_string()];
    let out = core.on_batch(&paths, &ignores, &Vec::new());
    assert!(out.quit);
    assert!(!out.spawn_snapshot);
    assert_eq!(load_exit_action(&core.exit_action), ExitAction::ReloadExec);
}

#[test]
fn fs_events_spawn_one_snapshot() {
    let mut core = WatcherCore::new();
    let paths = vec!["a.txt".to_string(), "b.txt".to_string()];
    let out = core.on_batch(&paths, &Vec::new(), &Vec::new());
    assert!(!out.quit);
    assert!(out.spawn_snapshot);
    assert!(core.snapshot_in_progress);
    // Another batch while the task runs is a silent skip.
    let out2 = core.on_batch(&paths, &Vec::new(), &Vec::new());
    assert!(!out2.spawn_snapshot);
}

#[test]
fn empty_batch_does_nothing() {
    let mut core = WatcherCore::new();
    let out = core.on_batch(&Vec::new(), &Vec::new(), &Vec::new());
    assert!(!out.quit);
    assert!(!out.spawn_snapshot);
    assert!(!core.snapshot_in_progress);
    assert_eq!(load_exit_action(&core.exit_action), ExitAction::Idle);
}

#[test]
fn untracked_path_is_no_ignore_hit() {
    let paths = vec!["src/main.c".to_string()];
    let ignores = vec![".gitignore".to_string()];
    assert!(!handle_ignore_file_updates(&paths, &ignores));
}

#[test]
fn binary_change_detection() {
    let orig = BinarySig { inode: 7, mtime_seconds: 100, mtime_nanos: 0 };
    assert!(!binary_changed(&orig, &None));
    assert!(!binary_changed(
        &orig,
        &Some(BinarySig { inode: 7, mtime_seconds: 100, mtime_nanos: 0 })
    ));
    assert!(binary_changed(
        &orig,
        &Some(BinarySig { inode: 8, mtime_seconds: 100, mtime_nanos: 0 })
    ));
    assert!(binary_changed(
        &orig,
        &Some(BinarySig { inode: 7, mtime_seconds: 101, mtime_nanos: 0 })
    ));
}

#[test]
fn binary_update_handshake_tail() {
    assert!(await_binary_update_and_maybe_exec(Some(true)));
    assert!(!await_binary_update_and_maybe_exec(Some(false)));
    assert!(!await_binary_update_and_maybe_exec(None));
}

#[test]
fn poller_reports_a_differing_binary() {
    let td = tempfile::tempdir().unwrap();
    let path = format!("{}/image", td.path().to_str().unwrap());
    git_autosnap::fsio::write_file(&path, &b"payload".to_vec()).expect("write");
    // The startup identity never matches the file on disk, so the first
    // sample already reports the replacement.
    let original = BinarySig {
        inode: 0,
        mtime_seconds: 0,
        mtime_nanos: 0,
    };
    let started = std::time::Instant::now();
    assert!(poll_binary_change(&path, &original));
    assert!(started.elapsed().as_secs() < 10, "a change must be seen at the first sample");
}
