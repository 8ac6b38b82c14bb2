//! The pure pieces: rendering, parsing, paths, the exclude edit, the
//! retry policy and the compaction arithmetic.

use git_autosnap::compact::{compact_gate, cutoff_from, partition_by_age};
use git_autosnap::errors::{i32_to_string, u64_to_string};
use git_autosnap::index::{merge_paths, next_backoff, should_skip_path};
use git_autosnap::process::{parse_pid, status_decision};
use git_autosnap::repo::ensure_exclude;
use git_autosnap::snapshot::{branch_or_detached, compose_message, snapshot_decision, store_gate};
use git_autosnap::text::{
    contains_sub, lines_of, lower_bytes, parse_u64_digits, trim_bytes, u64_to_dec_bytes,
};
use git_autosnap::timefmt::{civil_from_days, format_epoch_rfc3339};
use git_autosnap::gitio::{resolve_signature, SignatureRaw};
use git_autosnap::commands::status_exit;
use git_autosnap::daemon::{stop_decision, StopAction};
use git_autosnap::repo::{exclude_decision, ExcludeOutcome};
use git_autosnap::AutosnapError;

#[test]
fn decimal_rendering() {
    assert_eq!(u64_to_string(0), "0");
    assert_eq!(u64_to_string(7), "7");
    assert_eq!(u64_to_string(321), "321");
    assert_eq!(u64_to_string(18446744073709551615), "18446744073709551615");
    assert_eq!(i32_to_string(-45), "-45");
    assert_eq!(i32_to_string(-2147483648), "-2147483648");
    assert_eq!(u64_to_dec_bytes(904), vec![57u8, 48u8, 52u8]);
}

#[test]
fn timestamp_rendering_is_rfc3339() {
    assert_eq!(format_epoch_rfc3339(0, 0), "1970-01-01T00:00:00Z");
    // 2024-02-29 12:34:56 UTC: a leap day.
    assert_eq!(format_epoch_rfc3339(1709210096, 0), "2024-02-29T12:34:56Z");
    // A positive offset shifts the civil time and is rendered.
    assert_eq!(format_epoch_rfc3339(0, 3600), "1970-01-01T01:00:00+01:00");
    // A negative offset clamps at the epoch but still renders.
    assert_eq!(
        format_epoch_rfc3339(1709210096, -19800),
        "2024-02-29T07:04:56-05:30"
    );
}

#[test]
fn civil_conversion_round_trips_known_dates() {
    assert_eq!(civil_from_days(0), (1970, 1, 1));
    assert_eq!(civil_from_days(365), (1971, 1, 1));
    // 2000-03-01 is day 11017.
    assert_eq!(civil_from_days(11017), (2000, 3, 1));
    // 2024-12-31 is day 20088.
    assert_eq!(civil_from_days(20088), (2024, 12, 31));
}

#[test]
fn byte_text_utilities() {
    assert_eq!(trim_bytes(&b"  42\t\n".to_vec()), b"42".to_vec());
    assert_eq!(lower_bytes(&b"File CHANGED".to_vec()), b"file changed".to_vec());
    assert!(contains_sub(
        &b"error: file changed before we could read it!".to_vec(),
        &b"file changed before we could read it".to_vec()
    ));
    assert!(!contains_sub(&b"other error".to_vec(), &b"file changed".to_vec()));
    let lines = lines_of(&b"a\nbb\n\nc".to_vec());
    assert_eq!(
        lines,
        vec![b"a".to_vec(), b"bb".to_vec(), b"".to_vec(), b"c".to_vec()]
    );
    assert_eq!(parse_u64_digits(&b"321".to_vec(), 100000), Some(321));
    assert_eq!(parse_u64_digits(&b"12x".to_vec(), 100000), None);
    assert_eq!(parse_u64_digits(&b"100001".to_vec(), 100000), None);
}

#[test]
fn pid_parsing() {
    assert_eq!(parse_pid(&b" 1234\n".to_vec()).unwrap(), Some(1234));
    assert_eq!(parse_pid(&b"\n".to_vec()).unwrap(), None);
    assert!(parse_pid(&b"invalid-pid".to_vec()).is_err());
    assert!(parse_pid(&b"99999999999999".to_vec()).is_err());
    assert!(status_decision(Some(1), true));
    assert!(!status_decision(Some(1), false));
    assert!(!status_decision(None, true));
    assert_eq!(status_exit(true), 0);
    assert_eq!(status_exit(false), 1);
}

#[test]
fn exclude_edit_is_idempotent_and_minimal() {
    // Absent: appended with a terminating newline.
    let (once, changed) = ensure_exclude(&b"target/\n".to_vec());
    assert!(changed);
    assert_eq!(once, b"target/\n.autosnap\n".to_vec());
    // Unterminated content first gets its newline.
    let (from_bare, _) = ensure_exclude(&b"target/".to_vec());
    assert_eq!(from_bare, b"target/\n.autosnap\n".to_vec());
    // Present (even indented, or anchored): unchanged.
    let (same, changed2) = ensure_exclude(&b"  .autosnap \nother\n".to_vec());
    assert!(!changed2);
    assert_eq!(same, b"  .autosnap \nother\n".to_vec());
    let (anchored, changed3) = ensure_exclude(&b"/.autosnap\n".to_vec());
    assert!(!changed3);
    assert_eq!(anchored, b"/.autosnap\n".to_vec());
    // A second application changes nothing.
    let (twice, changed4) = ensure_exclude(&once);
    assert!(!changed4);
    assert_eq!(twice, once);
}

#[test]
fn hard_excludes_are_skipped() {
    assert!(should_skip_path(&".git".to_string()));
    assert!(should_skip_path(&".autosnap".to_string()));
    assert!(should_skip_path(&".git/config".to_string()));
    assert!(should_skip_path(&".autosnap/HEAD".to_string()));
    assert!(!should_skip_path(&".gitignore".to_string()));
    assert!(!should_skip_path(&"src/.git.c".to_string()));

    let indexed = vec![".git/config".to_string(), "kept.txt".to_string()];
    let untracked = vec![".autosnap/x".to_string(), "new.txt".to_string()];
    let merged = merge_paths(&indexed, &untracked);
    assert_eq!(merged, vec!["kept.txt".to_string(), "new.txt".to_string()]);

    // A path in both sources, or listed twice, enters the union once.
    let indexed = vec!["a.txt".to_string(), "b.txt".to_string(), "a.txt".to_string()];
    let untracked = vec!["b.txt".to_string(), "c.txt".to_string()];
    let merged = merge_paths(&indexed, &untracked);
    assert_eq!(
        merged,
        vec!["a.txt".to_string(), "b.txt".to_string(), "c.txt".to_string()]
    );
}

#[test]
fn backoff_doubles_and_caps() {
    assert_eq!(next_backoff(50), 100);
    assert_eq!(next_backoff(100), 200);
    assert_eq!(next_backoff(400), 800);
    assert_eq!(next_backoff(800), 800);
}

#[test]
fn message_composition() {
    let msg = compose_message(
        &"main".to_string(),
        &"2024-02-29T12:34:56Z".to_string(),
        None,
    );
    assert_eq!(msg, "AUTOSNAP[main] 2024-02-29T12:34:56Z");
    let with_note = compose_message(
        &"DETACHED".to_string(),
        &"2024-02-29T12:34:56Z".to_string(),
        Some(&"wip".to_string()),
    );
    assert_eq!(with_note, "AUTOSNAP[DETACHED] 2024-02-29T12:34:56Z: wip");
    assert_eq!(branch_or_detached(None), "DETACHED");
    assert_eq!(branch_or_detached(Some("dev".to_string())), "dev");
}

#[test]
fn snapshot_decision_matches_spec() {
    let empty_tree = "4b825dc642cb6eb9a060e54bf8d69288fbee4904".to_string();
    let t1 = "1111111111111111111111111111111111111111".to_string();
    let t2 = "2222222222222222222222222222222222222222".to_string();
    // No parent: emit unless the tree is empty.
    assert!(!snapshot_decision(&None, &empty_tree));
    assert!(snapshot_decision(&None, &t1));
    // With a parent: emit exactly on a differing tree.
    let head = Some(("c0ffee".to_string(), t1.clone()));
    assert!(!snapshot_decision(&head, &t1));
    assert!(snapshot_decision(&head, &t2));
}

#[test]
fn cutoff_and_partition() {
    assert_eq!(cutoff_from(1000000000, 30), 1000000000 - 30 * 86400);
    assert_eq!(cutoff_from(1000000000, 0), 1000000000);

    let mk = |time_seconds: i64| git_autosnap::gitio::CommitInfo {
        id: "id".to_string(),
        tree: "tree".to_string(),
        time_seconds,
        message: "m".to_string(),
        author: git_autosnap::gitio::SignatureData {
            name: "n".to_string(),
            email: "e".to_string(),
            seconds: time_seconds,
            offset_minutes: 0,
        },
        committer: git_autosnap::gitio::SignatureData {
            name: "n".to_string(),
            email: "e".to_string(),
            seconds: time_seconds,
            offset_minutes: 0,
        },
    };
    let commits = vec![mk(10), mk(20), mk(30), mk(40)];
    let (olds, keeps) = partition_by_age(commits, 25);
    assert_eq!(olds.len(), 2);
    assert_eq!(keeps.len(), 2);
    assert_eq!(olds[1].time_seconds, 20);
    assert_eq!(keeps[0].time_seconds, 30);
}

#[test]
fn error_messages_carry_their_context() {
    let e = AutosnapError::AlreadyRunning { pid: Some(4321) };
    assert_eq!(e.message(), "autosnap already running (pid=4321)");
    let e = AutosnapError::AlreadyRunning { pid: None };
    assert_eq!(e.message(), "autosnap already running (pid=unknown)");
    let e = AutosnapError::NotAVcsRepository;
    assert_eq!(e.message(), "not inside a Git repository");
    let e = AutosnapError::DirtyWorkingTree;
    assert!(e.message().contains("uncommitted changes"));
    let e = AutosnapError::InvalidRef { text: "nonexistent-commit".to_string() };
    assert_eq!(e.message(), "failed to parse commit reference: nonexistent-commit");
    let e = AutosnapError::IndexBuild { detail: "boom".to_string() };
    assert_eq!(e.message(), "index build failed: boom");
}

#[test]
fn gates_decide_the_missing_store_cases() {
    // Snapshots demand the store.
    assert!(store_gate(true).is_ok());
    match store_gate(false) {
        Err(AutosnapError::NotInitialized) => {}
        other => panic!("expected the missing-store error, got ok={}", other.is_ok()),
    }
    // Compaction reports the zero result instead.
    assert!(compact_gate(true).is_none());
    let zero = compact_gate(false).expect("zero result");
    assert_eq!(zero.before_commits, 0);
    assert_eq!(zero.after_commits, 0);
    assert!(!zero.rewritten);
    assert!(!zero.baseline_created);
}

#[test]
fn identity_fallback_is_applied_in_resolution() {
    let resolved = resolve_signature(SignatureRaw {
        name: None,
        email: None,
        seconds: 77,
        offset_minutes: -90,
    });
    assert_eq!(resolved.name, "git-autosnap");
    assert_eq!(resolved.email, "git-autosnap@local");
    assert_eq!(resolved.seconds, 77);
    assert_eq!(resolved.offset_minutes, -90);

    let kept = resolve_signature(SignatureRaw {
        name: Some("tester".to_string()),
        email: Some("tester@example.com".to_string()),
        seconds: 1,
        offset_minutes: 0,
    });
    assert_eq!(kept.name, "tester");
    assert_eq!(kept.email, "tester@example.com");
}

#[test]
fn stop_and_exclude_rules() {
    assert_eq!(stop_decision(false, None), StopAction::ReportAlreadyStopped);
    assert_eq!(stop_decision(true, None), StopAction::RejectBlankPid);
    assert_eq!(stop_decision(true, Some(41)), StopAction::SignalPid { pid: 41 });

    assert_eq!(
        exclude_decision(false, false),
        ExcludeOutcome::SkippedOutsideRepository
    );
    assert_eq!(exclude_decision(true, true), ExcludeOutcome::Updated);
    assert_eq!(exclude_decision(true, false), ExcludeOutcome::AlreadyCovered);
}
