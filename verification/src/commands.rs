//! The command layer: one handler per subcommand, a unified interface,
//! and the central dispatcher. Commands whose work is presentation or
//! process plumbing (the reactor, restore, diff, shell, logs, removal of
//! the store) report a deferred action for the runtime to carry out.

use vstd::prelude::*;
use crate::cli::{Cli, Commands};
use crate::compact;
use crate::context::AppContext;
use crate::daemon;
use crate::errors::AutosnapError;
use crate::fsio;
use crate::process;
use crate::repo;
use crate::snapshot;
use crate::text;

verus! {

/// Work the library cannot perform itself; the runtime does.
#[derive(Debug, Clone)]
pub enum Deferred {
    /// Run the foreground watcher reactor.
    StartForeground,
    /// Spawn the detached daemon child.
    StartDaemon,
    /// Remove the auxiliary directory tree.
    RemoveAuxDir,
    /// Open a snapshot in a subshell.
    Shell { commit: Option<String>, interactive: bool },
    /// Restore from a snapshot into the working tree.
    Restore {
        commit: Option<String>,
        interactive: bool,
        force: bool,
        dry_run: bool,
        full: bool,
        paths: Vec<String>,
    },
    /// Show a diff.
    Diff {
        commit1: Option<String>,
        commit2: Option<String>,
        interactive: bool,
        stat: bool,
        name_only: bool,
        name_status: bool,
        paths: Vec<String>,
    },
    /// View log files.
    Logs { follow: bool, lines: usize },
}

/// What a command decided: finished with an exit code, or work for the
/// runtime.
#[derive(Debug, Clone)]
pub enum DispatchOutcome {
    Done { exit: i32 },
    Defer { action: Deferred },
}

/// Whether two optional strings hold the same characters.
pub open spec fn spec_opt_str_eq(a: Option<String>, b: Option<String>) -> bool {
    match (a, b) {
        (Some(x), Some(y)) => x@ == y@,
        (None, None) => true,
        _ => false,
    }
}

/// Whether two string lists hold the same characters, position by position.
pub open spec fn spec_strs_eq(a: Seq<String>, b: Seq<String>) -> bool {
    a.len() == b.len() && forall|k: int| 0 <= k < a.len() ==> #[trigger] a[k]@ == b[k]@
}

/// Unified interface implemented by each subcommand handler.
pub trait Command {
    fn run(&self, ctx: &AppContext) -> Result<DispatchOutcome, AutosnapError>;
}

/// `init`: create the store and keep the exclude file covering it.
pub struct InitCommand;

impl Command for InitCommand {
    fn run(&self, ctx: &AppContext) -> (r: Result<DispatchOutcome, AutosnapError>)
        ensures
            r matches Ok(o) ==> o matches DispatchOutcome::Done { exit: 0 },
            r matches Err(e) ==> e matches AutosnapError::Io { .. },
    {
        match repo::init_autosnap(&ctx.repo_root) {
            Ok(_) => {},
            Err(e) => {
                return Err(e);
            },
        }
        let msg = text::concat_str("Initialized .autosnap in ", ctx.repo_root.as_str());
        fsio::print_line(&msg);
        Ok(DispatchOutcome::Done { exit: 0 })
    }
}

/// `once`: one snapshot, printing the short id when one was emitted.
pub struct OnceCommand {
    pub message: Option<String>,
}

impl Command for OnceCommand {
    fn run(&self, ctx: &AppContext) -> (r: Result<DispatchOutcome, AutosnapError>)
        ensures
            r matches Ok(o) ==> o matches DispatchOutcome::Done { exit: 0 },
            r matches Err(e) ==> (e matches AutosnapError::NotInitialized || e
                matches AutosnapError::Io { .. } || e matches AutosnapError::IndexBuild { .. }
                || e matches AutosnapError::CommitCreation { .. }),
    {
        let msg_ref: Option<&String> = match &self.message {
            Some(m) => Some(m),
            None => None,
        };
        match snapshot::snapshot_once(&ctx.repo_root, msg_ref) {
            Ok(Some(short)) => {
                fsio::print_line(&short);
                Ok(DispatchOutcome::Done { exit: 0 })
            },
            Ok(None) => Ok(DispatchOutcome::Done { exit: 0 }),
            Err(e) => Err(e),
        }
    }
}

/// `compact`: collapse history older than the retention window.
pub struct CompactCommand {
    pub days: Option<u32>,
}

impl Command for CompactCommand {
    fn run(&self, ctx: &AppContext) -> (r: Result<DispatchOutcome, AutosnapError>)
        ensures
            r matches Ok(o) ==> o matches DispatchOutcome::Done { exit: 0 },
            r matches Err(e) ==> (e matches AutosnapError::Io { .. } || e
                matches AutosnapError::CommitCreation { .. } || e
                matches AutosnapError::ReferenceUpdate { .. } || e
                matches AutosnapError::PostMaintenance { .. }),
    {
        let days = match self.days {
            Some(d) => d,
            None => ctx.cfg.compact_days,
        };
        let result = match compact::compact(&ctx.repo_root, days) {
            Ok(r) => r,
            Err(e) => {
                return Err(e);
            },
        };
        let line: String = if result.rewritten {
            let mut s = text::concat_str(
                "compacted snapshots: ",
                crate::errors::u64_to_string(result.before_commits as u64).as_str(),
            );
            s.append(" -> ");
            s.append(crate::errors::u64_to_string(result.after_commits as u64).as_str());
            s.append(" commits");
            s
        } else {
            let mut s = text::concat_str(
                "no rewrite needed (",
                crate::errors::u64_to_string(result.before_commits as u64).as_str(),
            );
            s.append(" commits)");
            s
        };
        fsio::print_line(&line);
        Ok(DispatchOutcome::Done { exit: 0 })
    }
}

/// `gc`: pack the store, optionally pruning by age.
pub struct GcCommand {
    pub days: Option<u32>,
    pub prune: bool,
}

impl Command for GcCommand {
    fn run(&self, ctx: &AppContext) -> (r: Result<DispatchOutcome, AutosnapError>)
        ensures
            r matches Ok(o) ==> o matches DispatchOutcome::Done { exit: 0 },
            r matches Err(e) ==> e matches AutosnapError::PostMaintenance { .. },
    {
        if self.prune {
            let days = match self.days {
                Some(d) => d,
                None => ctx.cfg.compact_days,
            };
            match compact::gc(&ctx.repo_root, true, days) {
                Ok(_) => Ok(DispatchOutcome::Done { exit: 0 }),
                Err(e) => Err(e),
            }
        } else {
            if self.days.is_some() {
                let warn = String::from_str("Warning: --days is ignored without --prune");
                fsio::print_err_line(&warn);
            }
            match compact::gc(&ctx.repo_root, false, 0) {
                Ok(_) => Ok(DispatchOutcome::Done { exit: 0 }),
                Err(e) => Err(e),
            }
        }
    }
}

/// The status exit-code rule: 0 exactly when running, 1 when stopped.
pub fn status_exit(running: bool) -> (exit: i32)
    ensures
        exit == (if running {
            0int
        } else {
            1int
        }),
{
    if running {
        0
    } else {
        1
    }
}

/// `status`: exit 0 when running, 1 when stopped.
pub struct StatusCommand;

impl Command for StatusCommand {
    fn run(&self, ctx: &AppContext) -> (r: Result<DispatchOutcome, AutosnapError>)
        ensures
            r matches Ok(o) ==> (o matches DispatchOutcome::Done { exit } && (exit == 0 || exit
                == 1)),
            r matches Err(e) ==> (e matches AutosnapError::Io { .. } || e
                matches AutosnapError::InvalidPid { .. }),
    {
        match process::status(&ctx.repo_root) {
            Ok(running) => {
                let s = if running {
                    String::from_str("running")
                } else {
                    String::from_str("stopped")
                };
                fsio::print_line(&s);
                Ok(DispatchOutcome::Done { exit: status_exit(running) })
            },
            Err(e) => Err(e),
        }
    }
}

/// `stop`: signal the watcher and wait for its PID file to go.
pub struct StopCommand;

impl Command for StopCommand {
    fn run(&self, ctx: &AppContext) -> (r: Result<DispatchOutcome, AutosnapError>)
        ensures
            r matches Ok(o) ==> o matches DispatchOutcome::Done { exit: 0 },
            r matches Err(e) ==> (e matches AutosnapError::Io { .. } || e
                matches AutosnapError::InvalidPid { .. }),
    {
        match daemon::stop(&ctx.repo_root) {
            Ok(daemon::StopOutcome::AlreadyStopped) => {
                let s = String::from_str("stopped");
                fsio::print_line(&s);
                Ok(DispatchOutcome::Done { exit: 0 })
            },
            Ok(daemon::StopOutcome::SignalSent { pid }) => {
                let line = text::concat_str(
                    "sent SIGTERM to ",
                    crate::errors::i32_to_string(pid).as_str(),
                );
                fsio::print_line(&line);
                Ok(DispatchOutcome::Done { exit: 0 })
            },
            Err(e) => Err(e),
        }
    }
}

/// `uninstall`: stop the watcher if running, then have the runtime remove
/// the auxiliary directory.
pub struct UninstallCommand;

impl Command for UninstallCommand {
    fn run(&self, ctx: &AppContext) -> (r: Result<DispatchOutcome, AutosnapError>)
        ensures
            r matches Ok(o) ==> o matches DispatchOutcome::Defer {
                action: Deferred::RemoveAuxDir,
            },
            r is Ok,
    {
        let _ = daemon::stop(&ctx.repo_root);
        Ok(DispatchOutcome::Defer { action: Deferred::RemoveAuxDir })
    }
}

/// `start`: the reactor (or the daemon spawn) runs in the runtime.
pub struct StartCommand {
    pub daemon: bool,
}

impl Command for StartCommand {
    fn run(&self, ctx: &AppContext) -> (r: Result<DispatchOutcome, AutosnapError>)
        ensures
            !self.daemon ==> r matches Ok(DispatchOutcome::Defer {
                action: Deferred::StartForeground,
            }),
            self.daemon ==> (r matches Ok(o) ==> (o matches DispatchOutcome::Done { exit: 0 }
                || o matches DispatchOutcome::Defer { action: Deferred::StartDaemon })),
            r matches Err(e) ==> (e matches AutosnapError::Io { .. } || e
                matches AutosnapError::InvalidPid { .. }),
    {
        if self.daemon {
            match process::status(&ctx.repo_root) {
                Ok(true) => {
                    let s = String::from_str("already running");
                    fsio::print_line(&s);
                    Ok(DispatchOutcome::Done { exit: 0 })
                },
                Ok(false) => Ok(DispatchOutcome::Defer { action: Deferred::StartDaemon }),
                Err(e) => Err(e),
            }
        } else {
            Ok(DispatchOutcome::Defer { action: Deferred::StartForeground })
        }
    }
}

/// `shell`: explore a snapshot in a subshell.
pub struct ShellCommand {
    pub commit: Option<String>,
    pub interactive: bool,
}

impl Command for ShellCommand {
    fn run(&self, _ctx: &AppContext) -> (r: Result<DispatchOutcome, AutosnapError>)
        ensures
            r matches Ok(DispatchOutcome::Defer {
                action: Deferred::Shell { commit, interactive },
            }) && spec_opt_str_eq(commit, self.commit) && interactive == self.interactive,
    {
        Ok(
            DispatchOutcome::Defer {
                action: Deferred::Shell {
                    commit: clone_opt_string(&self.commit),
                    interactive: self.interactive,
                },
            },
        )
    }
}

/// How `restore` applies its changes.
#[derive(Clone, Copy, Debug, PartialEq, Eq, Structural)]
pub enum RestoreApply {
    Apply,
    DryRun,
}

/// How much `restore` touches.
#[derive(Clone, Copy, Debug, PartialEq, Eq, Structural)]
pub enum RestoreMode {
    Overlay,
    Full,
}

/// `restore`: write a snapshot back into the working tree.
pub struct RestoreCommand {
    pub commit: Option<String>,
    pub interactive: bool,
    pub force: bool,
    pub apply: RestoreApply,
    pub mode: RestoreMode,
    pub paths: Vec<String>,
}

impl Command for RestoreCommand {
    fn run(&self, _ctx: &AppContext) -> (r: Result<DispatchOutcome, AutosnapError>)
        ensures
            r matches Ok(DispatchOutcome::Defer {
                action: Deferred::Restore { commit, interactive, force, dry_run, full, paths },
            }) && spec_opt_str_eq(commit, self.commit) && interactive == self.interactive
                && force == self.force && dry_run == (self.apply matches RestoreApply::DryRun)
                && full == (self.mode matches RestoreMode::Full) && spec_strs_eq(
                paths@,
                self.paths@,
            ),
    {
        Ok(
            DispatchOutcome::Defer {
                action: Deferred::Restore {
                    commit: clone_opt_string(&self.commit),
                    interactive: self.interactive,
                    force: self.force,
                    dry_run: matches!(self.apply, RestoreApply::DryRun),
                    full: matches!(self.mode, RestoreMode::Full),
                    paths: clone_strings(&self.paths),
                },
            },
        )
    }
}

/// Output format for diff display.
#[derive(Debug, Clone, Copy, PartialEq, Eq, Structural)]
pub enum DiffFormat {
    /// Full unified diff output.
    Unified,
    /// Statistics only: files changed, insertions, deletions.
    Stat,
    /// Only the names of changed files.
    NameOnly,
    /// Names and statuses of changed files.
    NameStatus,
}

/// `diff`: show changes between snapshots or against the working tree.
pub struct DiffCommand {
    pub commit1: Option<String>,
    pub commit2: Option<String>,
    pub interactive: bool,
    pub stat: bool,
    pub name_only: bool,
    pub name_status: bool,
    pub paths: Vec<String>,
}

impl DiffCommand {
    /// The format the flags select; statistics win over name listings,
    /// names over name-status, the unified diff is the default.
    pub fn format(&self) -> (r: DiffFormat)
        ensures
            r == (if self.stat {
                DiffFormat::Stat
            } else if self.name_only {
                DiffFormat::NameOnly
            } else if self.name_status {
                DiffFormat::NameStatus
            } else {
                DiffFormat::Unified
            }),
    {
        if self.stat {
            DiffFormat::Stat
        } else if self.name_only {
            DiffFormat::NameOnly
        } else if self.name_status {
            DiffFormat::NameStatus
        } else {
            DiffFormat::Unified
        }
    }
}

impl Command for DiffCommand {
    fn run(&self, _ctx: &AppContext) -> (r: Result<DispatchOutcome, AutosnapError>)
        ensures
            r matches Ok(DispatchOutcome::Defer {
                action: Deferred::Diff {
                    commit1,
                    commit2,
                    interactive,
                    stat,
                    name_only,
                    name_status,
                    paths,
                },
            }) && spec_opt_str_eq(commit1, self.commit1) && spec_opt_str_eq(commit2, self.commit2)
                && interactive == self.interactive && stat == self.stat && name_only
                == self.name_only && name_status == self.name_status && spec_strs_eq(
                paths@,
                self.paths@,
            ),
    {
        Ok(
            DispatchOutcome::Defer {
                action: Deferred::Diff {
                    commit1: clone_opt_string(&self.commit1),
                    commit2: clone_opt_string(&self.commit2),
                    interactive: self.interactive,
                    stat: self.stat,
                    name_only: self.name_only,
                    name_status: self.name_status,
                    paths: clone_strings(&self.paths),
                },
            },
        )
    }
}

/// `logs`: view the agent's log files.
pub struct LogsCommand {
    pub follow: bool,
    pub lines: usize,
}

impl Command for LogsCommand {
    fn run(&self, _ctx: &AppContext) -> (r: Result<DispatchOutcome, AutosnapError>)
        ensures
            r matches Ok(DispatchOutcome::Defer { action: Deferred::Logs { follow, lines } })
                && follow == self.follow && lines == self.lines,
    {
        Ok(
            DispatchOutcome::Defer {
                action: Deferred::Logs { follow: self.follow, lines: self.lines },
            },
        )
    }
}

/// A copy of an optional string.
fn clone_opt_string(s: &Option<String>) -> (r: Option<String>)
    ensures
        match s {
            Some(v) => r matches Some(o) && o@ == v@,
            None => r is None,
        },
{
    match s {
        Some(v) => Some(text::string_copy(v)),
        None => None,
    }
}

/// A copy of a string list, position by position.
fn clone_strings(v: &Vec<String>) -> (r: Vec<String>)
    ensures
        spec_strs_eq(r@, v@),
{
    let mut out: Vec<String> = Vec::new();
    let mut i: usize = 0;
    while i < v.len()
        invariant
            0 <= i <= v@.len(),
            out@.len() == i,
            forall|k: int| 0 <= k < i ==> #[trigger] out@[k]@ == v@[k]@,
        decreases v@.len() - i,
    {
        out.push(text::string_copy(&v[i]));
        i += 1;
    }
    out
}

/// Central dispatcher: routes a parsed command to its handler. The exit
/// codes spec the command surface: every foreground command finishes with
/// exit 0, status alone distinguishes running (0) from stopped (1), and
/// the presentation commands defer their matching action.
pub fn dispatch(ctx: &AppContext, command: Commands) -> (r: Result<
    DispatchOutcome,
    AutosnapError,
>)
    ensures
        (command matches Commands::Init || command matches Commands::Once { .. } || command
            matches Commands::Compact { .. } || command matches Commands::Gc { .. } || command
            matches Commands::Stop) ==> (r matches Ok(o) ==> o matches DispatchOutcome::Done {
            exit: 0,
        }),
        command matches Commands::Status ==> (r matches Ok(o) ==> (o
            matches DispatchOutcome::Done { exit } && (exit == 0 || exit == 1))),
        command matches Commands::Uninstall ==> r matches Ok(DispatchOutcome::Defer {
            action: Deferred::RemoveAuxDir,
        }),
        command matches Commands::Start { daemon: false } ==> r matches Ok(
            DispatchOutcome::Defer { action: Deferred::StartForeground },
        ),
        command matches Commands::Start { daemon: true } ==> (r matches Ok(o) ==> (o
            matches DispatchOutcome::Done { exit: 0 } || o matches DispatchOutcome::Defer {
                action: Deferred::StartDaemon,
            })),
        command matches Commands::Shell { .. } ==> r matches Ok(DispatchOutcome::Defer {
            action: Deferred::Shell { .. },
        }),
        command matches Commands::Restore { .. } ==> r matches Ok(DispatchOutcome::Defer {
            action: Deferred::Restore { .. },
        }),
        command matches Commands::Diff { .. } ==> r matches Ok(DispatchOutcome::Defer {
            action: Deferred::Diff { .. },
        }),
        command matches Commands::Logs { .. } ==> r matches Ok(DispatchOutcome::Defer {
            action: Deferred::Logs { .. },
        }),
{
    match command {
        Commands::Init => InitCommand.run(ctx),
        Commands::Once { message } => OnceCommand { message }.run(ctx),
        Commands::Compact { days } => CompactCommand { days }.run(ctx),
        Commands::Gc { days, prune } => GcCommand { days, prune }.run(ctx),
        Commands::Status => StatusCommand.run(ctx),
        Commands::Stop => StopCommand.run(ctx),
        Commands::Uninstall => UninstallCommand.run(ctx),
        Commands::Start { daemon } => StartCommand { daemon }.run(ctx),
        Commands::Shell { commit, interactive } => ShellCommand { commit, interactive }.run(ctx),
        Commands::Restore { commit, interactive, force, dry_run, full, paths } => RestoreCommand {
            commit,
            interactive,
            force,
            apply: if dry_run {
                RestoreApply::DryRun
            } else {
                RestoreApply::Apply
            },
            mode: if full {
                RestoreMode::Full
            } else {
                RestoreMode::Overlay
            },
            paths,
        }.run(ctx),
        Commands::Diff { commit1, commit2, interactive, stat, name_only, name_status, paths } => {
            DiffCommand {
                commit1,
                commit2,
                interactive,
                stat,
                name_only,
                name_status,
                paths,
            }.run(ctx)
        },
        Commands::Logs { follow, lines } => LogsCommand { follow, lines }.run(ctx),
    }
}

/// Entry point for parsed invocations: build the context, dispatch.
/// Outside a repository every command fails with the discovery error.
pub fn run(cli: Cli) -> (r: Result<DispatchOutcome, AutosnapError>)
    ensures
        (cli.command matches Commands::Init || cli.command matches Commands::Once { .. }
            || cli.command matches Commands::Compact { .. } || cli.command
            matches Commands::Gc { .. } || cli.command matches Commands::Stop) ==> (r matches Ok(
            o,
        ) ==> o matches DispatchOutcome::Done { exit: 0 }),
        cli.command matches Commands::Status ==> (r matches Ok(o) ==> (o
            matches DispatchOutcome::Done { exit } && (exit == 0 || exit == 1))),
        cli.command matches Commands::Uninstall ==> (r matches Ok(o) ==> o
            matches DispatchOutcome::Defer { action: Deferred::RemoveAuxDir }),
{
    let ctx = match AppContext::from_repo(cli.verbose) {
        Ok(ctx) => ctx,
        Err(e) => {
            return Err(e);
        },
    };
    dispatch(&ctx, cli.command)
}

} // verus!
