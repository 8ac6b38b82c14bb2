//! Error taxonomy of the snapshot agent.

use vstd::prelude::*;

verus! {

/// Everything that can go wrong in the agent, from discovery to compaction.
#[derive(Debug, Clone)]
pub enum AutosnapError {
    /// The auxiliary `.autosnap` store is absent for an operation that needs it.
    NotInitialized,
    /// Repository discovery failed: not inside a version-controlled tree.
    NotAVcsRepository,
    /// The PID-file lock is contested; the pid read from the file, if any.
    AlreadyRunning { pid: Option<i32> },
    /// A filesystem race during index build; retried, then promoted.
    Transient { detail: String },
    /// Index synthesis failed for good.
    IndexBuild { detail: String },
    /// Creating a commit in the auxiliary store failed.
    CommitCreation { detail: String },
    /// Moving the auxiliary reference failed.
    ReferenceUpdate { detail: String },
    /// A post-compaction maintenance command failed.
    PostMaintenance { detail: String },
    /// The working tree holds uncommitted changes and the caller did not force.
    DirtyWorkingTree,
    /// Generic filesystem failure, with the path it concerns.
    Io { path: String },
    /// The PID file holds something that is not a decimal pid.
    InvalidPid { text: String },
    /// A reference could not be resolved.
    InvalidRef { text: String },
    /// A path was not representable.
    InvalidPath { text: String },
}

impl AutosnapError {
    /// A short human-readable description; the command layer prints it.
    pub fn message(&self) -> (r: String)
        ensures
            r@.len() > 0,
    {
        let base: String = match self {
            AutosnapError::NotInitialized => String::from_str(
                ".autosnap is missing; run `git autosnap init` first",
            ),
            AutosnapError::NotAVcsRepository => String::from_str("not inside a Git repository"),
            AutosnapError::AlreadyRunning { pid } => {
                let tail: String = match pid {
                    Some(p) => crate::errors::i32_to_string(*p),
                    None => String::from_str("unknown"),
                };
                let head = String::from_str("autosnap already running (pid=");
                let head = head.concat(tail.as_str());
                head.concat(")")
            },
            AutosnapError::Transient { detail } => String::from_str(
                "transient filesystem race during index build: ",
            ).concat(detail.as_str()),
            AutosnapError::IndexBuild { detail } => String::from_str("index build failed: ")
                .concat(detail.as_str()),
            AutosnapError::CommitCreation { detail } => String::from_str(
                "failed to create autosnap commit: ",
            ).concat(detail.as_str()),
            AutosnapError::ReferenceUpdate { detail } => String::from_str(
                "failed to update autosnap reference: ",
            ).concat(detail.as_str()),
            AutosnapError::PostMaintenance { detail } => String::from_str(
                "post-compaction maintenance failed: ",
            ).concat(detail.as_str()),
            AutosnapError::DirtyWorkingTree => String::from_str(
                "Working tree has uncommitted changes. Use --force to override or commit/stash your changes first.",
            ),
            AutosnapError::Io { path } => String::from_str("filesystem error at ").concat(
                path.as_str(),
            ),
            AutosnapError::InvalidPid { text } => String::from_str("invalid pid in pidfile: ")
                .concat(text.as_str()),
            AutosnapError::InvalidRef { text } => String::from_str(
                "failed to parse commit reference: ",
            ).concat(text.as_str()),
            AutosnapError::InvalidPath { text } => String::from_str("invalid path: ").concat(
                text.as_str(),
            ),
        };
        proof {
            reveal_strlit(".autosnap is missing; run `git autosnap init` first");
            reveal_strlit("not inside a Git repository");
            reveal_strlit("autosnap already running (pid=");
            reveal_strlit("transient filesystem race during index build: ");
            reveal_strlit("index build failed: ");
            reveal_strlit("failed to create autosnap commit: ");
            reveal_strlit("failed to update autosnap reference: ");
            reveal_strlit("post-compaction maintenance failed: ");
            reveal_strlit("Working tree has uncommitted changes. Use --force to override or commit/stash your changes first.");
            reveal_strlit("filesystem error at ");
            reveal_strlit("invalid pid in pidfile: ");
            reveal_strlit("failed to parse commit reference: ");
            reveal_strlit("invalid path: ");
        }
        base
    }
}

/// Decimal digits of `n`, most significant first.
pub open spec fn spec_dec_digits(n: nat) -> Seq<char>
    decreases n,
{
    if n < 10 {
        seq![spec_digit_char(n)]
    } else {
        spec_dec_digits(n / 10) + seq![spec_digit_char(n % 10)]
    }
}

/// The character for one decimal digit.
pub open spec fn spec_digit_char(d: nat) -> char {
    if d == 0 { '0' }
    else if d == 1 { '1' }
    else if d == 2 { '2' }
    else if d == 3 { '3' }
    else if d == 4 { '4' }
    else if d == 5 { '5' }
    else if d == 6 { '6' }
    else if d == 7 { '7' }
    else if d == 8 { '8' }
    else { '9' }
}

/// One decimal digit, as a one-character string.
pub fn digit_str(d: u64) -> (r: &'static str)
    requires
        d < 10,
    ensures
        r@ =~= seq![spec_digit_char(d as nat)],
{
    if d == 0 { proof { reveal_strlit("0"); } "0" }
    else if d == 1 { proof { reveal_strlit("1"); } "1" }
    else if d == 2 { proof { reveal_strlit("2"); } "2" }
    else if d == 3 { proof { reveal_strlit("3"); } "3" }
    else if d == 4 { proof { reveal_strlit("4"); } "4" }
    else if d == 5 { proof { reveal_strlit("5"); } "5" }
    else if d == 6 { proof { reveal_strlit("6"); } "6" }
    else if d == 7 { proof { reveal_strlit("7"); } "7" }
    else if d == 8 { proof { reveal_strlit("8"); } "8" }
    else { proof { reveal_strlit("9"); } "9" }
}

/// Render `n` in decimal.
pub fn u64_to_string(n: u64) -> (r: String)
    ensures
        r@ == spec_dec_digits(n as nat),
    decreases n,
{
    if n < 10 {
        let mut s = String::new();
        s.append(digit_str(n));
        proof {
            assert(s@ =~= spec_dec_digits(n as nat));
        }
        s
    } else {
        let mut s = u64_to_string(n / 10);
        s.append(digit_str(n % 10));
        proof {
            assert(s@ =~= spec_dec_digits(n as nat));
        }
        s
    }
}

/// Decimal rendering of an `i32`, with a leading minus sign when negative.
pub open spec fn spec_i32_string(n: int) -> Seq<char> {
    if n < 0 {
        seq!['-'] + spec_dec_digits((-n) as nat)
    } else {
        spec_dec_digits(n as nat)
    }
}

/// Render an `i32` in decimal, minus sign included.
pub fn i32_to_string(n: i32) -> (r: String)
    ensures
        r@ == spec_i32_string(n as int),
{
    if n < 0 {
        let mag: u64 = if n == i32::MIN {
            2147483648u64
        } else {
            (-n) as u64
        };
        let mut s = String::new();
        s.append("-");
        let digits = u64_to_string(mag);
        s.append(digits.as_str());
        proof {
            reveal_strlit("-");
            assert(s@ =~= spec_i32_string(n as int));
        }
        s
    } else {
        u64_to_string(n as u64)
    }
}

} // verus!
