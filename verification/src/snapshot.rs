//! The snapshot engine: under the ops lock, synthesize the working tree,
//! compare with the parent, and emit a structured commit only when the
//! tree changed.

use vstd::prelude::*;
use crate::errors::AutosnapError;
use crate::fsio;
use crate::gitio;
use crate::index;
use crate::ops_lock;
use crate::repo;
use crate::text;
use crate::timefmt;

verus! {

/// The message a snapshot carries: the marker, the branch in brackets, the
/// timestamp, and the optional custom suffix.
pub open spec fn spec_autosnap_message(
    branch: Seq<char>,
    ts: Seq<char>,
    custom: Option<Seq<char>>,
) -> Seq<char> {
    "AUTOSNAP["@ + branch + "] "@ + ts + (match custom {
        Some(c) => ": "@ + c,
        None => Seq::<char>::empty(),
    })
}

/// Compose the commit message.
pub fn compose_message(branch: &String, ts: &String, custom: Option<&String>) -> (r: String)
    ensures
        r@ == spec_autosnap_message(branch@, ts@, match custom {
            Some(c) => Some(c@),
            None => None,
        }),
{
    let mut s = String::new();
    s.append("AUTOSNAP[");
    s.append(branch.as_str());
    s.append("] ");
    s.append(ts.as_str());
    match custom {
        Some(c) => {
            s.append(": ");
            s.append(c.as_str());
            proof {
                assert(s@ =~= spec_autosnap_message(branch@, ts@, Some(c@)));
            }
        },
        None => {
            proof {
                assert(s@ =~= spec_autosnap_message(branch@, ts@, None));
            }
        },
    }
    s
}

/// The shape every watcher-emitted message has: the marker, a nonempty
/// bracketed branch free of closing brackets, a space, then a timestamp in
/// date-and-minutes shape.
pub open spec fn spec_matches_autosnap(msg: Seq<char>) -> bool {
    exists|j: int|
        {
            &&& 9 < j < msg.len()
            &&& #[trigger] msg[j] == ']'
            &&& msg.len() >= j + 2 + 17
            &&& msg.take(9) == "AUTOSNAP["@
            &&& (forall|k: int| 9 <= k < j ==> #[trigger] msg[k] != ']')
            &&& msg[j + 1] == ' '
            &&& timefmt::spec_timestamp_shape(msg.skip(j + 2))
        }
}

/// A composed message matches the quoted pattern, for every branch name
/// that is nonempty and free of closing brackets. (A branch name holding
/// `]` - which the version-control system permits - falls outside the
/// pattern, so the claim excludes it.)
pub proof fn lemma_message_matches(branch: Seq<char>, ts: Seq<char>, custom: Option<Seq<char>>)
    requires
        branch.len() > 0,
        forall|k: int| 0 <= k < branch.len() ==> #[trigger] branch[k] != ']',
        timefmt::spec_timestamp_shape(ts),
    ensures
        spec_matches_autosnap(spec_autosnap_message(branch, ts, custom)),
{
    reveal_strlit("AUTOSNAP[");
    reveal_strlit("] ");
    reveal_strlit(": ");
    let msg = spec_autosnap_message(branch, ts, custom);
    let j = 9 + branch.len() as int;
    assert(msg[j] == ']');
    assert(msg.take(9) =~= "AUTOSNAP["@);
    assert forall|k: int| 9 <= k < j implies #[trigger] msg[k] != ']' by {
        assert(msg[k] == branch[k - 9]);
    }
    assert(msg[j + 1] == ' ');
    let tail = msg.skip(j + 2);
    assert forall|k: int| 0 <= k < 17 implies #[trigger] tail[k] == ts[k] by {}
    assert(timefmt::spec_timestamp_shape(tail));
    assert(9 < j < msg.len() && msg[j] == ']' && msg.len() >= j + 2 + 17 && msg.take(9)
        == "AUTOSNAP["@ && (forall|k: int| 9 <= k < j ==> #[trigger] msg[k] != ']') && msg[j + 1]
        == ' ' && timefmt::spec_timestamp_shape(msg.skip(j + 2)));
}

/// The branch a message names: the current branch short name, or the
/// literal `DETACHED` when the primary head is not on a branch.
pub fn branch_or_detached(branch: Option<String>) -> (r: String)
    ensures
        match branch {
            Some(b) => r@ == b@,
            None => r@ == "DETACHED"@,
        },
{
    match branch {
        Some(b) => b,
        None => String::from_str("DETACHED"),
    }
}

/// A configured identity part, or its fallback.
pub fn identity_or(value: Option<String>, fallback: &str) -> (r: String)
    ensures
        match value {
            Some(v) => r@ == v@,
            None => r@ == fallback@,
        },
{
    match value {
        Some(v) => v,
        None => String::from_str(fallback),
    }
}

/// The tree identifier of the empty tree in the auxiliary store's object
/// format: a first snapshot of nothing records nothing.
pub open spec fn spec_empty_tree_hex() -> Seq<char> {
    "4b825dc642cb6eb9a060e54bf8d69288fbee4904"@
}

/// Duplicate-tree suppression: emit exactly when the synthesized tree
/// differs from the parent's, an absent parent counting as empty.
pub open spec fn spec_snapshot_emits(
    head: Option<(Seq<char>, Seq<char>)>,
    new_tree: Seq<char>,
) -> bool {
    !((head matches Some(h) && h.1 == new_tree) || (head is None && new_tree
        == spec_empty_tree_hex()))
}

/// A second snapshot over an unchanged tree is always suppressed: once a
/// commit with tree `t` leads the reference, a synthesis that yields `t`
/// again emits nothing.
pub proof fn lemma_repeat_snapshot_suppressed(commit: Seq<char>, tree: Seq<char>)
    ensures
        !spec_snapshot_emits(Some((commit, tree)), tree),
{
}

/// Duplicate-tree suppression: emit a commit exactly when the synthesized
/// tree differs from the parent's - where an absent parent counts as the
/// empty tree, so an empty repository yields no first commit.
pub fn snapshot_decision(head: &Option<(String, String)>, new_tree: &String) -> (emit: bool)
    ensures
        emit == spec_snapshot_emits(
            match head {
                Some(h) => Some((h.0@, h.1@)),
                None => None,
            },
            new_tree@,
        ),
{
    proof {
        reveal_strlit("4b825dc642cb6eb9a060e54bf8d69288fbee4904");
    }
    match head {
        Some(h) => !text::str_eq_str(h.1.as_str(), new_tree.as_str()),
        None => !text::str_eq_str(new_tree.as_str(), "4b825dc642cb6eb9a060e54bf8d69288fbee4904"),
    }
}

/// The timestamp for a snapshot taken now, in date-and-minutes shape.
/// The clock is the machine's; how a given clock value renders is pinned
/// by `format_epoch_rfc3339`'s own contract.
pub fn timestamp_now() -> (r: String)
    ensures
        timefmt::spec_timestamp_shape(r@),
{
    let (epoch, offset) = fsio::sys_now_epoch_offset();
    timefmt::format_epoch_rfc3339(epoch, offset)
}

/// The initialization gate: an operation that needs the auxiliary store
/// proceeds exactly when the store is present, and an absent store is the
/// missing-initialization error, nothing else.
pub fn store_gate(store_present: bool) -> (r: Result<(), AutosnapError>)
    ensures
        (r is Ok) == store_present,
        !store_present ==> r matches Err(AutosnapError::NotInitialized),
{
    if store_present {
        Ok(())
    } else {
        Err(AutosnapError::NotInitialized)
    }
}

/// Take a single snapshot of the working tree and commit it into the
/// auxiliary store. Returns the short identifier of the new commit, or
/// `None` when the synthesized tree equals the parent's and emission is
/// suppressed. An absent store is refused before the lock is taken.
pub fn snapshot_once(repo_root: &String, message: Option<&String>) -> (r: Result<
    Option<String>,
    AutosnapError,
>)
    ensures
        r matches Err(e) ==> (e matches AutosnapError::NotInitialized || e
            matches AutosnapError::Io { .. } || e matches AutosnapError::IndexBuild { .. } || e
            matches AutosnapError::CommitCreation { .. }),
{
    let autosnap = repo::autosnap_dir(repo_root);
    if let Err(e) = store_gate(fsio::sys_path_exists(autosnap.as_str())) {
        return Err(e);
    }
    let lock = match ops_lock::acquire_ops_lock(repo_root) {
        Ok(g) => g,
        Err(e) => {
            return Err(e);
        },
    };
    let out = snapshot_locked(repo_root, &autosnap, message);
    lock.release();
    out
}

/// The snapshot body, run while the ops lock is held.
fn snapshot_locked(
    repo_root: &String,
    autosnap: &String,
    message: Option<&String>,
) -> (r: Result<Option<String>, AutosnapError>)
    ensures
        r matches Err(e) ==> (e matches AutosnapError::Io { .. } || e
            matches AutosnapError::IndexBuild { .. } || e
            matches AutosnapError::CommitCreation { .. }),
{
    let repo = match gitio::open_attached(autosnap, repo_root) {
        Ok(r) => r,
        Err(_) => {
            let path = text::string_copy(autosnap);
            return Err(AutosnapError::Io { path });
        },
    };
    let tree = match index::write_tree_with_retries(&repo, repo_root, 5, 50) {
        Ok(t) => t,
        Err(e) => {
            return Err(e);
        },
    };
    let head = match gitio::head_info(&repo) {
        Ok(h) => h,
        Err(_) => None,
    };
    if !snapshot_decision(&head, &tree) {
        return Ok(None);
    }
    let name = identity_or(
        gitio::discover_config_string(repo_root, "user.name"),
        "git-autosnap",
    );
    let email = identity_or(
        gitio::discover_config_string(repo_root, "user.email"),
        "git-autosnap@local",
    );
    let branch = branch_or_detached(gitio::discover_head_branch(repo_root));
    let ts = timestamp_now();
    let msg = compose_message(&branch, &ts, message);
    let parent: Option<String> = match head {
        Some(h) => Some(h.0),
        None => None,
    };
    let oid = match gitio::create_commit_now(&repo, &tree, &parent, &name, &email, &msg) {
        Ok(oid) => oid,
        Err(e) => {
            return Err(
                AutosnapError::CommitCreation { detail: text::bytes_to_string_lossy(&e.message) },
            );
        },
    };
    // Short identifier for script-friendly output; the full one if the
    // abbreviation fails.
    match gitio::short_id(&repo, &oid) {
        Ok(short) => Ok(Some(short)),
        Err(_) => Ok(Some(oid)),
    }
}

} // verus!
