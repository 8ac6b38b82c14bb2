//! Orderly stop of the background watcher: read the PID file, send the
//! termination signal, wait briefly for the PID file to disappear.
//! (Detached-session start is the runtime's: it forks and execs.)

use vstd::prelude::*;
use crate::errors::AutosnapError;
use crate::fsio;
use crate::process;
use crate::text;

verus! {

/// What `stop` found and did.
#[derive(Debug, Clone, Copy, PartialEq, Eq, Structural)]
pub enum StopOutcome {
    /// No PID file: nothing was running.
    AlreadyStopped,
    /// The termination signal went to this pid.
    SignalSent { pid: i32 },
}

/// What `stop` must do next, from what the PID file held.
#[derive(Debug, Clone, Copy, PartialEq, Eq, Structural)]
pub enum StopAction {
    /// No PID file: report already stopped, touch nothing.
    ReportAlreadyStopped,
    /// A file without a pid in it: reject it, signal nothing.
    RejectBlankPid,
    /// Send the termination signal to this pid and await cleanup.
    SignalPid { pid: i32 },
}

/// The stop rule: a missing PID file means already stopped; a present but
/// blank file carries no pid to signal and is rejected; a recorded pid is
/// signalled.
pub fn stop_decision(file_present: bool, pid: Option<i32>) -> (r: StopAction)
    ensures
        !file_present ==> r == StopAction::ReportAlreadyStopped,
        file_present && pid is None ==> r == StopAction::RejectBlankPid,
        file_present ==> (pid matches Some(p) ==> r == (StopAction::SignalPid { pid: p })),
{
    if !file_present {
        StopAction::ReportAlreadyStopped
    } else {
        match pid {
            None => StopAction::RejectBlankPid,
            Some(p) => StopAction::SignalPid { pid: p },
        }
    }
}

/// Stop the running watcher via its PID file: a missing file means already
/// stopped; a malformed pid is an error; otherwise the termination signal
/// is sent and the PID file's disappearance awaited for up to two seconds.
/// Which of the three happens is `stop_decision`'s exact contract.
pub fn stop(repo_root: &String) -> (r: Result<StopOutcome, AutosnapError>)
    ensures
        r matches Err(e) ==> (e matches AutosnapError::Io { .. } || e
            matches AutosnapError::InvalidPid { .. }),
{
    let path = process::pid_file(repo_root);
    let content = match fsio::read_file_if_exists(&path, 4096) {
        Ok(Some(v)) => Some(v),
        Ok(None) => None,
        Err(_) => {
            return Err(AutosnapError::Io { path });
        },
    };
    let parsed: Option<i32> = match &content {
        Some(v) => match process::parse_pid(v) {
            Ok(p) => p,
            Err(e) => {
                return Err(e);
            },
        },
        None => None,
    };
    let pid = match stop_decision(content.is_some(), parsed) {
        StopAction::ReportAlreadyStopped => {
            return Ok(StopOutcome::AlreadyStopped);
        },
        StopAction::RejectBlankPid => {
            // A blank PID file carries no pid to signal.
            let text = match &content {
                Some(v) => text::bytes_to_string_lossy(v),
                None => String::new(),
            };
            return Err(AutosnapError::InvalidPid { text });
        },
        StopAction::SignalPid { pid } => pid,
    };
    // Failure to signal is reported by the caller's output, not fatal.
    let _ = fsio::sys_kill_term(pid);
    // Wait briefly for shutdown and PID-file cleanup: 20 polls, 100 ms.
    let mut i: u32 = 0;
    while i < 20
        invariant
            i <= 20,
        decreases 20 - i,
    {
        if !fsio::sys_path_exists(path.as_str()) {
            return Ok(StopOutcome::SignalSent { pid });
        }
        fsio::sleep_ms(100);
        i += 1;
    }
    Ok(StopOutcome::SignalSent { pid })
}

} // verus!
