//! The process singleton: a PID file under an advisory exclusive lock
//! guarantees at most one watcher per repository, and a liveness probe
//! backs the `status` command.

use vstd::prelude::*;
use crate::errors::AutosnapError;
use crate::fsio;
use crate::text;

verus! {

/// Path to the PID file inside `.autosnap`.
pub fn pid_file(repo_root: &String) -> (r: String)
    ensures
        r@ == repo_root@ + "/.autosnap/autosnap.pid"@,
{
    let mut s = String::new();
    s.append(repo_root.as_str());
    s.append("/.autosnap/autosnap.pid");
    proof {
        assert(s@ =~= repo_root@ + "/.autosnap/autosnap.pid"@);
    }
    s
}

/// The largest value a pid may take here.
pub open spec fn spec_pid_limit() -> int {
    2147483647
}

/// What a PID file's bytes denote: nothing when blank, a pid when the
/// trimmed content is a bounded decimal number, an error otherwise.
pub open spec fn spec_pid_of(content: Seq<u8>) -> Option<Option<int>> {
    let t = text::spec_trim(content);
    if t.len() == 0 {
        Some(None)
    } else if text::spec_all_digits(t) && text::spec_digits_value(t) <= spec_pid_limit() {
        Some(Some(text::spec_digits_value(t) as int))
    } else {
        None
    }
}

/// Parse PID-file content: blank means no pid, malformed text is an error.
pub fn parse_pid(content: &Vec<u8>) -> (r: Result<Option<i32>, AutosnapError>)
    ensures
        match r {
            Ok(None) => spec_pid_of(content@) == Some(Option::<int>::None),
            Ok(Some(p)) => spec_pid_of(content@) == Some(Some(p as int)),
            Err(e) => spec_pid_of(content@) is None && e matches AutosnapError::InvalidPid {
                ..
            },
        },
{
    let t = text::trim_bytes(content);
    if t.len() == 0 {
        return Ok(None);
    }
    match text::parse_u64_digits(&t, 2147483647) {
        Some(x) => Ok(Some(x as i32)),
        None => Err(
            AutosnapError::InvalidPid { text: text::bytes_to_string_lossy(&t) },
        ),
    }
}

/// The status rule: running exactly when the PID file yielded a pid and the
/// liveness probe for that pid succeeded. A missing file, a blank file and
/// a dead pid all mean stopped.
pub fn status_decision(pid: Option<i32>, alive: bool) -> (r: bool)
    ensures
        r == (pid is Some && alive),
{
    match pid {
        Some(_) => alive,
        None => false,
    }
}

/// Whether a watcher appears to be running: the PID file exists and the pid
/// recorded in it is alive (probed with signal 0). A missing or blank file
/// is stopped; what running means is `status_decision`'s exact contract.
pub fn status(repo_root: &String) -> (r: Result<bool, AutosnapError>)
    ensures
        r matches Err(e) ==> (e matches AutosnapError::Io { .. } || e
            matches AutosnapError::InvalidPid { .. }),
{
    let path = pid_file(repo_root);
    let content = match fsio::read_file_if_exists(&path, 4096) {
        Ok(Some(v)) => v,
        Ok(None) => {
            return Ok(false);
        },
        Err(_) => {
            return Err(AutosnapError::Io { path });
        },
    };
    let pid = match parse_pid(&content) {
        Ok(p) => p,
        Err(e) => {
            return Err(e);
        },
    };
    let alive = match pid {
        Some(p) => fsio::sys_pid_alive(p),
        None => false,
    };
    Ok(status_decision(pid, alive))
}

/// Guard holding the exclusive lock on the PID file for the process
/// lifetime; its pid is written in the file while the guard lives.
pub struct PidGuard {
    fd: i32,
    path: String,
}

impl PidGuard {
    /// Release the lock and best-effort remove the PID file.
    pub fn release(self) {
        let _ = fsio::sys_flock_unlock(self.fd);
        let _ = fsio::sys_close(self.fd);
        let _ = fsio::sys_unlink(self.path.as_str());
    }
}

/// Acquire the single-instance lock and record the current pid,
/// mode 0600 with a trailing newline. When the lock is contested, fail
/// with whatever pid the file already holds.
pub fn acquire_lock(repo_root: &String) -> (r: Result<PidGuard, AutosnapError>)
    ensures
        r matches Err(e) ==> (e matches AutosnapError::AlreadyRunning { .. } || e
            matches AutosnapError::Io { .. }),
{
    let dir = crate::repo::autosnap_dir(repo_root);
    let _ = fsio::sys_mkdir(dir.as_str());
    let path = pid_file(repo_root);
    let fd = match fsio::sys_open_rw_create(path.as_str()) {
        Ok(fd) => fd,
        Err(_) => {
            return Err(AutosnapError::Io { path });
        },
    };
    if let Err(_) = fsio::sys_flock_try_exclusive(fd) {
        // Contested: report the pid already in the file, if readable.
        let pid: Option<i32> = match fsio::read_all(fd, 4096) {
            Ok(content) => match parse_pid(&content) {
                Ok(p) => p,
                Err(_) => None,
            },
            Err(_) => None,
        };
        let _ = fsio::sys_close(fd);
        return Err(AutosnapError::AlreadyRunning { pid });
    }
    if let Err(_) = fsio::sys_truncate(fd) {
        let _ = fsio::sys_close(fd);
        return Err(AutosnapError::Io { path });
    }
    let pid = fsio::sys_getpid();
    let mut bytes = text::u64_to_dec_bytes(pid as u64);
    bytes.push(10);
    if let Err(_) = fsio::write_all(fd, &bytes) {
        let _ = fsio::sys_close(fd);
        return Err(AutosnapError::Io { path });
    }
    if let Err(_) = fsio::sys_chmod_0600(fd) {
        let _ = fsio::sys_close(fd);
        return Err(AutosnapError::Io { path });
    }
    Ok(PidGuard { fd, path })
}

/// What the PID file is given holds exactly the pid written: rendering a
/// pid and parsing it back round-trips through the file format.
pub proof fn lemma_pidfile_round_trip(digits: Seq<u8>, pid: int)
    requires
        text::spec_all_digits(digits),
        digits.len() > 0,
        text::spec_digits_value(digits) == pid,
        0 <= pid <= spec_pid_limit(),
    ensures
        spec_pid_of(digits + seq![10u8]) == Some(Some(pid)),
{
    let full = digits + seq![10u8];
    lemma_trim_digits_nl(digits);
    assert(text::spec_trim(full) =~= digits);
}

/// Trimming digit bytes followed by a newline leaves the digits.
proof fn lemma_trim_digits_nl(digits: Seq<u8>)
    requires
        text::spec_all_digits(digits),
        digits.len() > 0,
    ensures
        text::spec_trim(digits + seq![10u8]) == digits,
{
    let full = digits + seq![10u8];
    assert(48 <= full[0] <= 57);
    assert(!text::spec_is_space(full[0]));
    assert(text::spec_trim_start(full) == full);
    assert(full.last() == 10u8);
    assert(full.drop_last() =~= digits);
    assert(text::spec_trim_end(full) == text::spec_trim_end(digits));
    assert(!text::spec_is_space(digits.last()));
    assert(text::spec_trim_end(digits) == digits);
}

} // verus!
