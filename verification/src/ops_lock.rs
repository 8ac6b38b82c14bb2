//! The ops lock: an advisory exclusive file lock that serializes every
//! writer of the auxiliary store (snapshot and compaction alike).

use vstd::prelude::*;
use crate::errors::AutosnapError;
use crate::fsio;

verus! {

/// Path to the lock that serializes snapshot/compact writes.
pub fn ops_lock_path(repo_root: &String) -> (r: String)
    ensures
        r@ == repo_root@ + "/.autosnap/autosnap.ops.lock"@,
{
    let mut s = String::new();
    s.append(repo_root.as_str());
    s.append("/.autosnap/autosnap.ops.lock");
    proof {
        assert(s@ =~= repo_root@ + "/.autosnap/autosnap.ops.lock"@);
    }
    s
}

/// Guard that holds the autosnap operations lock.
///
/// While a guard exists, this process holds the advisory exclusive lock on
/// the ops-lock file; every auxiliary-store mutation happens under one.
/// `release` is called on every exit path of the engines.
pub struct OpsLockGuard {
    fd: i32,
}

impl OpsLockGuard {
    /// Release the lock and close the descriptor. Unconditional: errors on
    /// release are ignored, as the process is leaving its critical section.
    pub fn release(self) {
        let _ = fsio::sys_flock_unlock(self.fd);
        let _ = fsio::sys_close(self.fd);
    }
}

/// Acquire the exclusive lock serializing snapshot and compact operations.
/// Blocks until the lock is available; callers rely on it to serialize,
/// never to fail fast.
pub fn acquire_ops_lock(repo_root: &String) -> (r: Result<
    OpsLockGuard,
    AutosnapError,
>)
    ensures
        r matches Err(e) ==> e matches AutosnapError::Io { .. },
{
    // Make sure the auxiliary directory exists for the lock file.
    let dir = crate::repo::autosnap_dir(repo_root);
    let _ = fsio::sys_mkdir(dir.as_str());
    let path = ops_lock_path(repo_root);
    let fd = match fsio::sys_open_rw_create(path.as_str()) {
        Ok(fd) => fd,
        Err(_) => {
            return Err(AutosnapError::Io { path });
        },
    };
    match fsio::sys_flock_exclusive(fd) {
        Ok(_) => Ok(OpsLockGuard { fd }),
        Err(_) => {
            let _ = fsio::sys_close(fd);
            Err(AutosnapError::Io { path })
        },
    }
}

} // verus!
