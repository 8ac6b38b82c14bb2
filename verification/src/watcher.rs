//! The watcher state machine: the single-threaded event-reaction core.
//!
//! The reactor callback never blocks: it only elevates the exit action,
//! toggles the single-snapshot flag, and reports what the runtime must do
//! (spawn a snapshot task, start the binary poller, stop the reactor).
//! Heavy work runs after the reactor stops, driven by the exit-action
//! arbiter. The whole reaction is a pure function of the batch and the
//! state, stated exactly by the model below.

use vstd::prelude::*;
use crate::errors::AutosnapError;
use crate::fsio;
use crate::snapshot;
use crate::text;

verus! {

/// What to do after the reactor stops. Higher precedence wins when intents
/// coalesce.
#[derive(Clone, Copy, Debug, PartialEq, Eq, Structural)]
pub enum ExitAction {
    /// Nothing requested.
    Idle,
    /// Take one final snapshot, then exit.
    Snapshot,
    /// Final snapshot, then replace the process image to reload ignores.
    ReloadExec,
    /// Final snapshot, then await the binary poller and maybe re-exec.
    BinaryUpdateExec,
}

/// The precedence of an exit action.
pub open spec fn spec_rank(a: ExitAction) -> int {
    match a {
        ExitAction::Idle => 0,
        ExitAction::Snapshot => 1,
        ExitAction::ReloadExec => 2,
        ExitAction::BinaryUpdateExec => 3,
    }
}

/// Elevation: the higher-precedence action of the two.
pub open spec fn spec_elevate(current: ExitAction, requested: ExitAction) -> ExitAction {
    if spec_rank(requested) > spec_rank(current) {
        requested
    } else {
        current
    }
}

/// The byte cell holding the exit action. The runtime shares it between
/// handler and arbiter; every write goes through `elevate_exit_action`, so
/// the decoded action only ever rises.
pub struct ExitActionCell {
    value: u8,
}

impl ExitActionCell {
    /// The action the cell holds; byte values above the highest action
    /// decode to the highest.
    pub closed spec fn view(&self) -> ExitAction {
        if self.value == 0 {
            ExitAction::Idle
        } else if self.value == 1 {
            ExitAction::Snapshot
        } else if self.value == 2 {
            ExitAction::ReloadExec
        } else {
            ExitAction::BinaryUpdateExec
        }
    }

    /// A fresh cell, with nothing requested.
    pub fn new() -> (r: ExitActionCell)
        ensures
            r.view() == ExitAction::Idle,
    {
        ExitActionCell { value: 0 }
    }
}

/// Ensure the cell only ever increases in precedence: the new action is
/// stored exactly when it outranks the current one.
pub fn elevate_exit_action(cell: &mut ExitActionCell, requested: ExitAction)
    ensures
        final(cell).view() == spec_elevate(old(cell).view(), requested),
{
    let new_val: u8 = match requested {
        ExitAction::Idle => 0,
        ExitAction::Snapshot => 1,
        ExitAction::ReloadExec => 2,
        ExitAction::BinaryUpdateExec => 3,
    };
    if cell.value < new_val {
        cell.value = new_val;
    }
}

/// The action currently requested.
pub fn load_exit_action(cell: &ExitActionCell) -> (r: ExitAction)
    ensures
        r == cell.view(),
{
    if cell.value == 0 {
        ExitAction::Idle
    } else if cell.value == 1 {
        ExitAction::Snapshot
    } else if cell.value == 2 {
        ExitAction::ReloadExec
    } else {
        ExitAction::BinaryUpdateExec
    }
}

/// The signals the reactor reacts to.
#[derive(Clone, Copy, Debug, PartialEq, Eq, Structural)]
pub enum WatcherSignal {
    /// Graceful shutdown with a final snapshot.
    Terminate,
    /// Graceful shutdown with a final snapshot.
    Interrupt,
    /// Reserved: logged and ignored.
    Hangup,
    /// Force an immediate snapshot.
    User1,
    /// Binary-replacement handshake.
    User2,
    /// Anything else: ignored.
    Other,
}

/// The running effect of consuming signals in order.
#[derive(Clone, Copy, Debug, PartialEq, Eq, Structural)]
pub struct SignalEffect {
    /// The exit action after the consumed prefix.
    pub action: ExitAction,
    /// The single-snapshot deduplication flag.
    pub in_progress: bool,
    /// The reactor must stop; the rest of the batch is not consumed.
    pub quit: bool,
    /// A snapshot task must be spawned.
    pub spawn_snapshot: bool,
    /// The binary-change poller must be started.
    pub start_poller: bool,
}

/// Consuming signals in order: terminate and interrupt elevate to a final
/// snapshot and stop; hangup is reserved; user-1 spawns a snapshot task
/// when the flag transitions, and is otherwise dropped; user-2 elevates to
/// the binary-update handshake, starts the poller, and stops.
pub open spec fn spec_handle_signals(sigs: Seq<WatcherSignal>, m: SignalEffect) -> SignalEffect
    decreases sigs.len(),
{
    if sigs.len() == 0 {
        m
    } else {
        match sigs[0] {
            WatcherSignal::Terminate | WatcherSignal::Interrupt => SignalEffect {
                action: spec_elevate(m.action, ExitAction::Snapshot),
                quit: true,
                ..m
            },
            WatcherSignal::User2 => SignalEffect {
                action: spec_elevate(m.action, ExitAction::BinaryUpdateExec),
                quit: true,
                start_poller: true,
                ..m
            },
            WatcherSignal::User1 => {
                if !m.in_progress {
                    spec_handle_signals(
                        sigs.skip(1),
                        SignalEffect { in_progress: true, spawn_snapshot: true, ..m },
                    )
                } else {
                    spec_handle_signals(sigs.skip(1), m)
                }
            },
            _ => spec_handle_signals(sigs.skip(1), m),
        }
    }
}

/// Consume a batch's signals. Pure: the result is exactly the model's.
pub fn handle_signals(signals: &Vec<WatcherSignal>, start: SignalEffect) -> (r: SignalEffect)
    ensures
        r == spec_handle_signals(signals@, start),
{
    let mut cur = start;
    let mut i: usize = 0;
    proof {
        assert(signals@.skip(0) =~= signals@);
    }
    while i < signals.len()
        invariant
            0 <= i <= signals@.len(),
            spec_handle_signals(signals@, start) == spec_handle_signals(
                signals@.skip(i as int),
                cur,
            ),
        decreases signals@.len() - i,
    {
        proof {
            assert(signals@.skip(i as int)[0] == signals@[i as int]);
            assert(signals@.skip(i as int).skip(1) =~= signals@.skip(i as int + 1));
        }
        match signals[i] {
            WatcherSignal::Terminate | WatcherSignal::Interrupt => {
                cur = SignalEffect {
                    action: if rank_value(cur.action) < 1 {
                        ExitAction::Snapshot
                    } else {
                        cur.action
                    },
                    quit: true,
                    ..cur
                };
                return cur;
            },
            WatcherSignal::User2 => {
                cur = SignalEffect {
                    action: ExitAction::BinaryUpdateExec,
                    quit: true,
                    start_poller: true,
                    ..cur
                };
                return cur;
            },
            WatcherSignal::User1 => {
                if !cur.in_progress {
                    cur = SignalEffect { in_progress: true, spawn_snapshot: true, ..cur };
                }
            },
            _ => {},
        }
        i += 1;
    }
    proof {
        assert(signals@.skip(signals@.len() as int) =~= Seq::<WatcherSignal>::empty());
    }
    cur
}

/// The precedence of an action, as a value.
fn rank_value(a: ExitAction) -> (r: u8)
    ensures
        r == spec_rank(a),
{
    match a {
        ExitAction::Idle => 0,
        ExitAction::Snapshot => 1,
        ExitAction::ReloadExec => 2,
        ExitAction::BinaryUpdateExec => 3,
    }
}

/// Whether some changed path is a ignores ignore file.
pub open spec fn spec_ignore_hit(paths: Seq<Seq<char>>, ignores: Seq<Seq<char>>) -> bool {
    exists|i: int| 0 <= i < paths.len() && ignores.contains(#[trigger] paths[i])
}

/// Whether the batch touches a ignores ignore file.
pub fn handle_ignore_file_updates(paths: &Vec<String>, ignores: &Vec<String>) -> (hit: bool)
    ensures
        hit == spec_ignore_hit(
            paths@.map_values(|s: String| s@),
            ignores@.map_values(|s: String| s@),
        ),
{
    let mut i: usize = 0;
    while i < paths.len()
        invariant
            0 <= i <= paths@.len(),
            forall|k: int|
                0 <= k < i ==> !ignores@.map_values(|s: String| s@).contains(
                    #[trigger] paths@[k]@,
                ),
        decreases paths@.len() - i,
    {
        if contains_string(ignores, &paths[i]) {
            proof {
                let pm = paths@.map_values(|s: String| s@);
                let tm = ignores@.map_values(|s: String| s@);
                assert(pm[i as int] == paths@[i as int]@);
                assert(tm.contains(pm[i as int]));
                assert(spec_ignore_hit(pm, tm));
            }
            return true;
        }
        i += 1;
    }
    proof {
        let pm = paths@.map_values(|s: String| s@);
        let tm = ignores@.map_values(|s: String| s@);
        assert forall|k: int| 0 <= k < pm.len() implies !tm.contains(#[trigger] pm[k]) by {
            assert(pm[k] == paths@[k]@);
        }
    }
    false
}

/// Whether some string of `v` holds the characters of `x`.
fn contains_string(v: &Vec<String>, x: &String) -> (r: bool)
    ensures
        r == v@.map_values(|s: String| s@).contains(x@),
{
    let mut i: usize = 0;
    while i < v.len()
        invariant
            0 <= i <= v@.len(),
            forall|k: int| 0 <= k < i ==> #[trigger] v@[k]@ != x@,
        decreases v@.len() - i,
    {
        if text::str_eq_str(v[i].as_str(), x.as_str()) {
            proof {
                assert(v@.map_values(|s: String| s@)[i as int] == x@);
            }
            return true;
        }
        i += 1;
    }
    proof {
        let m = v@.map_values(|s: String| s@);
        assert forall|k: int| 0 <= k < m.len() implies #[trigger] m[k] != x@ by {
            assert(m[k] == v@[k]@);
        }
        assert(!m.contains(x@));
    }
    false
}

/// What the runtime must do after one reactor callback.
#[derive(Clone, Copy, Debug, PartialEq, Eq, Structural)]
pub struct BatchOutcome {
    /// Stop the reactor; the arbiter takes over.
    pub quit: bool,
    /// Spawn one blocking snapshot task.
    pub spawn_snapshot: bool,
    /// Start the binary-change poller.
    pub start_poller: bool,
}

/// The reactor's shared state: what the callback reads and writes.
pub struct WatcherCore {
    /// The exit-action cell, shared with the arbiter.
    pub exit_action: ExitActionCell,
    /// The single-snapshot deduplication flag; the runtime clears it when
    /// a spawned snapshot task finishes.
    pub snapshot_in_progress: bool,
}

impl WatcherCore {
    /// A fresh core: nothing requested, no snapshot in flight.
    pub fn new() -> (r: WatcherCore)
        ensures
            r.exit_action.view() == ExitAction::Idle,
            !r.snapshot_in_progress,
    {
        WatcherCore { exit_action: ExitActionCell::new(), snapshot_in_progress: false }
    }

    /// One debounced batch: ignores-ignore edits first (stop and reload,
    /// nothing else runs), then the signals in order, then filesystem
    /// events, which spawn at most one snapshot task per batch.
    pub fn on_batch(
        &mut self,
        paths: &Vec<String>,
        ignores: &Vec<String>,
        signals: &Vec<WatcherSignal>,
    ) -> (r: BatchOutcome)
        ensures
            ({
                let hit = spec_ignore_hit(
                    paths@.map_values(|s: String| s@),
                    ignores@.map_values(|s: String| s@),
                );
                let eff = spec_handle_signals(
                    signals@,
                    SignalEffect {
                        action: old(self).exit_action.view(),
                        in_progress: old(self).snapshot_in_progress,
                        quit: false,
                        spawn_snapshot: false,
                        start_poller: false,
                    },
                );
                if hit {
                    r.quit && !r.spawn_snapshot && !r.start_poller
                        && final(self).exit_action.view() == spec_elevate(
                        old(self).exit_action.view(),
                        ExitAction::ReloadExec,
                    ) && final(self).snapshot_in_progress == old(self).snapshot_in_progress
                } else if eff.quit {
                    r.quit && r.spawn_snapshot == eff.spawn_snapshot && r.start_poller
                        == eff.start_poller && final(self).exit_action.view() == eff.action
                        && final(self).snapshot_in_progress == eff.in_progress
                } else {
                    let fs_spawn = paths@.len() > 0 && !eff.in_progress;
                    !r.quit && r.spawn_snapshot == (eff.spawn_snapshot || fs_spawn)
                        && r.start_poller == eff.start_poller && final(self).exit_action.view()
                        == eff.action && final(self).snapshot_in_progress == (eff.in_progress
                        || fs_spawn)
                }
            }),
    {
        if handle_ignore_file_updates(paths, ignores) {
            elevate_exit_action(&mut self.exit_action, ExitAction::ReloadExec);
            return BatchOutcome { quit: true, spawn_snapshot: false, start_poller: false };
        }
        let ghost init = SignalEffect {
            action: self.exit_action.view(),
            in_progress: self.snapshot_in_progress,
            quit: false,
            spawn_snapshot: false,
            start_poller: false,
        };
        let eff = handle_signals(
            signals,
            SignalEffect {
                action: load_exit_action(&self.exit_action),
                in_progress: self.snapshot_in_progress,
                quit: false,
                spawn_snapshot: false,
                start_poller: false,
            },
        );
        proof {
            lemma_signals_monotone(signals@, init);
        }
        elevate_exit_action(&mut self.exit_action, eff.action);
        proof {
            assert(self.exit_action.view() == eff.action);
        }
        self.snapshot_in_progress = eff.in_progress;
        if eff.quit {
            return BatchOutcome {
                quit: true,
                spawn_snapshot: eff.spawn_snapshot,
                start_poller: eff.start_poller,
            };
        }
        // Filesystem events: one snapshot task, deduplicated by the flag.
        let mut spawn = eff.spawn_snapshot;
        if paths.len() > 0 && !self.snapshot_in_progress {
            self.snapshot_in_progress = true;
            spawn = true;
        }
        BatchOutcome { quit: false, spawn_snapshot: spawn, start_poller: eff.start_poller }
    }
}

/// Signals never lower the exit action: whatever a batch's signals are,
/// the action they leave never ranks below the one they started from.
pub proof fn lemma_signals_monotone(sigs: Seq<WatcherSignal>, m: SignalEffect)
    ensures
        spec_rank(spec_handle_signals(sigs, m).action) >= spec_rank(m.action),
    decreases sigs.len(),
{
    if sigs.len() > 0 {
        match sigs[0] {
            WatcherSignal::User1 => {
                if !m.in_progress {
                    lemma_signals_monotone(
                        sigs.skip(1),
                        SignalEffect { in_progress: true, spawn_snapshot: true, ..m },
                    );
                } else {
                    lemma_signals_monotone(sigs.skip(1), m);
                }
            },
            WatcherSignal::Hangup | WatcherSignal::Other => {
                lemma_signals_monotone(sigs.skip(1), m);
            },
            _ => {},
        }
    }
}

/// What must happen once the reactor has stopped.
#[derive(Clone, Copy, Debug, PartialEq, Eq, Structural)]
pub enum ExitFollowUp {
    /// Exit normally.
    Exit,
    /// Replace the process image with a fresh invocation.
    Reexec,
    /// Await the binary-update channel, then maybe re-exec.
    AwaitBinaryUpdate,
}

/// The arbiter: runs the final snapshot for any action at or above
/// `Snapshot` (its outcome is handed back for logging), and reports
/// whether the process must re-exec now, await the binary poller, or just
/// exit. The image replacement itself is the runtime's.
pub fn finalize_exit_actions(repo_root: &String, cell: &ExitActionCell) -> (r: (
    ExitFollowUp,
    Option<Result<Option<String>, AutosnapError>>,
))
    ensures
        (r.1 is Some) == (spec_rank(cell.view()) >= 1),
        r.0 == ExitFollowUp::Reexec <==> cell.view() == ExitAction::ReloadExec,
        r.0 == ExitFollowUp::AwaitBinaryUpdate <==> cell.view() == ExitAction::BinaryUpdateExec,
{
    let action = load_exit_action(cell);
    let took: Option<Result<Option<String>, AutosnapError>> = match action {
        ExitAction::Idle => None,
        _ => Some(snapshot::snapshot_once(repo_root, None)),
    };
    let follow = match action {
        ExitAction::ReloadExec => ExitFollowUp::Reexec,
        ExitAction::BinaryUpdateExec => ExitFollowUp::AwaitBinaryUpdate,
        _ => ExitFollowUp::Exit,
    };
    (follow, took)
}

/// The executable's identity at startup: inode and modification time.
#[derive(Clone, Copy, Debug, PartialEq, Eq, Structural)]
pub struct BinarySig {
    pub inode: u64,
    pub mtime_seconds: i64,
    pub mtime_nanos: u32,
}

/// One poller sample: the binary changed when the probe read metadata and
/// either the inode or the modification time differs from startup.
pub fn binary_changed(original: &BinarySig, current: &Option<BinarySig>) -> (r: bool)
    ensures
        r == (current matches Some(c) && (c.inode != original.inode || c.mtime_seconds
            != original.mtime_seconds || c.mtime_nanos != original.mtime_nanos)),
{
    match current {
        Some(c) => c.inode != original.inode || c.mtime_seconds != original.mtime_seconds
            || c.mtime_nanos != original.mtime_nanos,
        None => false,
    }
}

/// The binary-change poller: up to 30 samples, 500 milliseconds apart
/// (at most 15 seconds), reporting a change as soon as a sample's inode or
/// modification time differs from the startup identity, and `false` once
/// the budget runs out with no difference seen. Each sample's verdict is
/// `binary_changed`'s exact contract; what the filesystem reports each
/// round is the machine's.
pub fn poll_binary_change(exe_path: &String, original: &BinarySig) -> (changed: bool) {
    let mut i: u32 = 0;
    while i < 30
        invariant
            i <= 30,
        decreases 30 - i,
    {
        fsio::sleep_ms(500);
        let current: Option<BinarySig> = match fsio::sys_file_sig(exe_path.as_str()) {
            Some((inode, secs, nanos)) => Some(
                BinarySig { inode, mtime_seconds: secs, mtime_nanos: nanos },
            ),
            None => None,
        };
        if binary_changed(original, &current) {
            return true;
        }
        i += 1;
    }
    false
}

/// The tail of the binary-update handshake: the runtime awaits the
/// poller's channel (with its timeout) and hands the outcome here; the
/// process re-execs exactly when the poller reported a change in time.
pub fn await_binary_update_and_maybe_exec(outcome: Option<bool>) -> (reexec: bool)
    ensures
        reexec == (outcome == Some(true)),
{
    match outcome {
        Some(b) => b,
        None => false,
    }
}

} // verus!
