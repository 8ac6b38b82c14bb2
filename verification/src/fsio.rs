//! File-descriptor level system access, through `nix`.
//!
//! Each trusted wrapper holds one system call; the loops that drive them
//! (reading a whole file, writing a buffer out) are verified here. Results
//! depend on the machine's filesystem, so the wrappers state only what holds
//! of every outcome; errors carry the raw errno value.

use vstd::prelude::*;
use std::io::Write;

verus! {

/// Relies on nix::fcntl::open with O_RDWR|O_CREAT, mode 0600:
/// opens or creates the file and returns its descriptor.
#[verifier::external_body]
pub(crate) fn sys_open_rw_create(path: &str) -> (r: Result<i32, i32>) {
    nix::fcntl::open(
        path,
        nix::fcntl::OFlag::O_RDWR | nix::fcntl::OFlag::O_CREAT,
        nix::sys::stat::Mode::from_bits_truncate(0o600),
    ).map_err(|e| e as i32)
}

/// Relies on nix::fcntl::open with O_RDONLY: opens an existing file.
#[verifier::external_body]
pub(crate) fn sys_open_ro(path: &str) -> (r: Result<i32, i32>) {
    nix::fcntl::open(
        path,
        nix::fcntl::OFlag::O_RDONLY,
        nix::sys::stat::Mode::empty(),
    ).map_err(|e| e as i32)
}

/// Relies on nix::unistd::close.
#[verifier::external_body]
pub(crate) fn sys_close(fd: i32) -> (r: Result<(), i32>) {
    nix::unistd::close(fd).map_err(|e| e as i32)
}

/// Relies on nix::unistd::read: hands back at most 4096 bytes; an empty
/// result is end of file.
#[verifier::external_body]
pub(crate) fn sys_read_some(fd: i32) -> (r: Result<Vec<u8>, i32>)
    ensures
        match r {
            Ok(v) => v@.len() <= 4096,
            Err(_) => true,
        },
{
    let mut buf = [0u8; 4096];
    match nix::unistd::read(fd, &mut buf) {
        Ok(n) => Ok(buf[..n].to_vec()),
        Err(e) => Err(e as i32),
    }
}

/// Relies on nix::unistd::write, starting at `start` in `data`:
/// returns how many bytes the kernel took.
#[verifier::external_body]
pub(crate) fn sys_write_from(fd: i32, data: &Vec<u8>, start: usize) -> (r: Result<usize, i32>)
    requires
        start <= data@.len(),
    ensures
        match r {
            Ok(n) => n <= data@.len() - start,
            Err(_) => true,
        },
{
    nix::unistd::write(fd, &data[start..]).map_err(|e| e as i32)
}

/// Relies on nix::unistd::ftruncate: empties the file.
#[verifier::external_body]
pub(crate) fn sys_truncate(fd: i32) -> (r: Result<(), i32>) {
    nix::unistd::ftruncate(fd, 0).map_err(|e| e as i32)
}

/// Relies on nix::sys::stat::fchmod: sets mode 0600.
#[verifier::external_body]
pub(crate) fn sys_chmod_0600(fd: i32) -> (r: Result<(), i32>) {
    nix::sys::stat::fchmod(
        fd,
        nix::sys::stat::Mode::from_bits_truncate(0o600),
    ).map_err(|e| e as i32)
}

/// Relies on nix::fcntl::flock with LOCK_EX: blocks until the advisory
/// exclusive lock on the open file is granted.
#[verifier::external_body]
pub(crate) fn sys_flock_exclusive(fd: i32) -> (r: Result<(), i32>) {
    nix::fcntl::flock(fd, nix::fcntl::FlockArg::LockExclusive).map_err(|e| e as i32)
}

/// Relies on nix::fcntl::flock with LOCK_EX|LOCK_NB: tries the advisory
/// exclusive lock without blocking; EWOULDBLOCK when another holds it.
#[verifier::external_body]
pub(crate) fn sys_flock_try_exclusive(fd: i32) -> (r: Result<(), i32>) {
    nix::fcntl::flock(fd, nix::fcntl::FlockArg::LockExclusiveNonblock).map_err(|e| e as i32)
}

/// Relies on nix::fcntl::flock with LOCK_UN: releases the advisory lock.
#[verifier::external_body]
pub(crate) fn sys_flock_unlock(fd: i32) -> (r: Result<(), i32>) {
    nix::fcntl::flock(fd, nix::fcntl::FlockArg::Unlock).map_err(|e| e as i32)
}

/// Relies on nix::unistd::mkdir, mode 0755.
#[verifier::external_body]
pub(crate) fn sys_mkdir(path: &str) -> (r: Result<(), i32>) {
    nix::unistd::mkdir(path, nix::sys::stat::Mode::from_bits_truncate(0o755)).map_err(
        |e| e as i32,
    )
}

/// Relies on nix::unistd::unlink.
#[verifier::external_body]
pub(crate) fn sys_unlink(path: &str) -> (r: Result<(), i32>) {
    nix::unistd::unlink(path).map_err(|e| e as i32)
}

/// Relies on nix::sys::stat::stat: whether the path exists.
#[verifier::external_body]
pub(crate) fn sys_path_exists(path: &str) -> (r: bool) {
    nix::sys::stat::stat(path).is_ok()
}

/// Relies on nix::unistd::getpid, which always succeeds; pids are positive.
#[verifier::external_body]
pub(crate) fn sys_getpid() -> (r: i32)
    ensures
        r > 0,
{
    nix::unistd::getpid().as_raw()
}

/// Relies on nix::sys::signal::kill with no signal (signal 0):
/// a liveness probe that sends nothing.
#[verifier::external_body]
pub(crate) fn sys_pid_alive(pid: i32) -> (r: bool) {
    nix::sys::signal::kill(nix::unistd::Pid::from_raw(pid), None).is_ok()
}

/// Relies on nix::sys::signal::kill with SIGTERM.
#[verifier::external_body]
pub(crate) fn sys_kill_term(pid: i32) -> (r: Result<(), i32>) {
    nix::sys::signal::kill(
        nix::unistd::Pid::from_raw(pid),
        Some(nix::sys::signal::Signal::SIGTERM),
    ).map_err(|e| e as i32)
}

/// Relies on nix::poll::poll with no descriptors: blocks the calling
/// thread for the timeout, in any context (also on a thread that is
/// inside an async runtime). A delivered signal may cut the pause short;
/// the retry and polling loops tolerate a shortened sleep.
#[verifier::external_body]
pub(crate) fn sleep_ms(ms: u64) {
    let timeout: i32 = if ms > 2147483647 { 2147483647 } else { ms as i32 };
    let mut fds: [nix::poll::PollFd; 0] = [];
    let _ = nix::poll::poll(&mut fds, timeout);
}

/// Relies on time::OffsetDateTime::now_local (now_utc when the local offset
/// is indeterminate): the clock's epoch seconds and the UTC offset in
/// seconds. Both depend on the machine; nothing more is promised.
#[verifier::external_body]
pub(crate) fn sys_now_epoch_offset() -> (r: (i64, i32)) {
    let now = time::OffsetDateTime::now_local().unwrap_or_else(|_| time::OffsetDateTime::now_utc());
    (now.unix_timestamp(), now.offset().whole_seconds())
}

/// Relies on nix::sys::stat::stat: a file's inode, modification seconds
/// and nanoseconds, as its on-disk identity; an absent or unreadable path
/// gives nothing.
#[verifier::external_body]
pub(crate) fn sys_file_sig(path: &str) -> (r: Option<(u64, i64, u32)>) {
    nix::sys::stat::stat(path).ok().map(|st| (st.st_ino, st.st_mtime, st.st_mtime_nsec as u32))
}

/// Relies on writeln to the standard output stream.
#[verifier::external_body]
pub(crate) fn print_line(s: &String) {
    let _ = writeln!(std::io::stdout(), "{}", s);
}

/// Relies on writeln to the standard error stream.
#[verifier::external_body]
pub(crate) fn print_err_line(s: &String) {
    let _ = writeln!(std::io::stderr(), "{}", s);
}

/// Read the whole file behind `fd`, up to `cap` bytes.
pub fn read_all(fd: i32, cap: usize) -> (r: Result<Vec<u8>, i32>)
    ensures
        match r {
            Ok(v) => v@.len() <= cap,
            Err(_) => true,
        },
{
    let mut out: Vec<u8> = Vec::new();
    while out.len() <= cap
        invariant
            out@.len() <= cap + 1,
        decreases cap + 1 - out@.len(),
    {
        let mut chunk = match sys_read_some(fd) {
            Ok(c) => c,
            Err(e) => {
                return Err(e);
            },
        };
        if chunk.len() == 0 {
            return Ok(out);
        }
        if chunk.len() > cap - out.len() {
            return Err(27);
        }
        out.append(&mut chunk);
    }
    Err(27)
}

/// Write all of `data` to `fd`.
pub fn write_all(fd: i32, data: &Vec<u8>) -> (r: Result<(), i32>) {
    let n = data.len();
    let mut start: usize = 0;
    while start < n
        invariant
            0 <= start <= n,
            n == data@.len(),
        decreases n - start,
    {
        match sys_write_from(fd, data, start) {
            Ok(written) => {
                if written == 0 {
                    // A zero-length write would loop forever; report it.
                    return Err(5);
                }
                start += written;
            },
            Err(e) => {
                return Err(e);
            },
        }
    }
    Ok(())
}

/// Read a file's contents; `Ok(None)` when the path does not exist.
pub fn read_file_if_exists(path: &String, cap: usize) -> (r: Result<Option<Vec<u8>>, i32>)
    ensures
        match r {
            Ok(Some(v)) => v@.len() <= cap,
            _ => true,
        },
{
    let fd = match sys_open_ro(path.as_str()) {
        Ok(fd) => fd,
        Err(e) => {
            if e == 2 {
                return Ok(None);
            }
            return Err(e);
        },
    };
    let contents = read_all(fd, cap);
    let _ = sys_close(fd);
    match contents {
        Ok(v) => Ok(Some(v)),
        Err(e) => Err(e),
    }
}

/// Replace a file's contents, creating it if absent.
pub fn write_file(path: &String, data: &Vec<u8>) -> (r: Result<(), i32>) {
    let fd = match sys_open_rw_create(path.as_str()) {
        Ok(fd) => fd,
        Err(e) => {
            return Err(e);
        },
    };
    if let Err(e) = sys_truncate(fd) {
        let _ = sys_close(fd);
        return Err(e);
    }
    if let Err(e) = write_all(fd, data) {
        let _ = sys_close(fd);
        return Err(e);
    }
    sys_close(fd)
}

} // verus!
