//! Trusted access to the version-control library (`git2`).
//!
//! Every wrapper body holds the library calls and plain-value conversion,
//! nothing else. What a call returns depends on the repository on disk, so
//! the contracts state only what holds of every outcome; the engines above
//! take these results as arguments and are verified for every value.

use vstd::prelude::*;

verus! {

#[verifier::external_type_specification]
#[verifier::external_body]
pub struct ExGitRepository(git2::Repository);

#[verifier::external_type_specification]
#[verifier::external_body]
pub struct ExGitIndex(git2::Index);

#[verifier::external_type_specification]
#[verifier::external_body]
pub struct ExGitError(git2::Error);

#[verifier::external_type_specification]
#[verifier::external_body]
pub struct ExGitSignature<'a>(git2::Signature<'a>);

#[verifier::external_type_specification]
#[verifier::external_body]
pub struct ExGitTree<'a>(git2::Tree<'a>);

#[verifier::external_type_specification]
#[verifier::external_body]
pub struct ExGitCommit<'a>(git2::Commit<'a>);

/// A library error reduced to what the retry policy reads: its class, its
/// code, and its message bytes.
pub struct GitOpError {
    /// The error class is the filesystem class.
    pub class_filesystem: bool,
    /// The error code reports an object modified between stat and read.
    pub code_modified: bool,
    /// The message text, as bytes.
    pub message: Vec<u8>,
}

/// One party of a commit: identity plus timestamp with UTC offset.
pub struct SignatureData {
    pub name: String,
    pub email: String,
    pub seconds: i64,
    pub offset_minutes: i32,
}

/// One commit party as the library hands it over: a party whose name or
/// email is not text comes through as absent, for verified code to
/// resolve.
pub struct SignatureRaw {
    pub name: Option<String>,
    pub email: Option<String>,
    pub seconds: i64,
    pub offset_minutes: i32,
}

/// One commit as the library hands it over, fallbacks not yet applied.
pub struct CommitRaw {
    pub id: String,
    pub tree: String,
    pub time_seconds: i64,
    pub message: Option<String>,
    pub author: SignatureRaw,
    pub committer: SignatureRaw,
}

/// Everything the compaction engine reads of one commit, fallbacks
/// resolved.
pub struct CommitInfo {
    /// Full hex identifier.
    pub id: String,
    /// Hex identifier of the commit's tree.
    pub tree: String,
    /// Committer timestamp, epoch seconds.
    pub time_seconds: i64,
    /// The full message.
    pub message: String,
    pub author: SignatureData,
    pub committer: SignatureData,
}

/// Relies on git2::Error::class, ::code and ::message: carries the three
/// facts the retry policy reads over into plain values.
#[verifier::external_body]
fn git_err(e: git2::Error) -> (r: GitOpError) {
    GitOpError {
        class_filesystem: matches!(e.class(), git2::ErrorClass::Filesystem),
        code_modified: matches!(e.code(), git2::ErrorCode::Modified),
        message: e.message().as_bytes().to_vec(),
    }
}

/// Relies on git2::Signature::name, ::email and ::when: copies one
/// signature into plain values; a party that is not valid text comes
/// through as absent.
#[verifier::external_body]
fn sig_raw(s: &git2::Signature<'_>) -> (r: SignatureRaw) {
    SignatureRaw {
        name: s.name().ok().map(|n| n.to_string()),
        email: s.email().ok().map(|e| e.to_string()),
        seconds: s.when().seconds(),
        offset_minutes: s.when().offset_minutes(),
    }
}

/// What resolving a raw party means: the recorded text where present, the
/// agent's fallback identity where absent, timestamp and offset verbatim.
pub open spec fn spec_resolved_sig(raw: SignatureRaw, s: SignatureData) -> bool {
    &&& s.name@ == (match raw.name {
        Some(n) => n@,
        None => "git-autosnap"@,
    })
    &&& s.email@ == (match raw.email {
        Some(e) => e@,
        None => "git-autosnap@local"@,
    })
    &&& s.seconds == raw.seconds
    &&& s.offset_minutes == raw.offset_minutes
}

/// What resolving a raw commit means: every field carried over, an absent
/// message becoming empty, both parties resolved.
pub open spec fn spec_resolved_commit(raw: CommitRaw, c: CommitInfo) -> bool {
    &&& c.id@ == raw.id@
    &&& c.tree@ == raw.tree@
    &&& c.time_seconds == raw.time_seconds
    &&& c.message@ == (match raw.message {
        Some(m) => m@,
        None => Seq::<char>::empty(),
    })
    &&& spec_resolved_sig(raw.author, c.author)
    &&& spec_resolved_sig(raw.committer, c.committer)
}

/// Apply the agent's identity fallback to one raw party.
pub fn resolve_signature(raw: SignatureRaw) -> (r: SignatureData)
    ensures
        spec_resolved_sig(raw, r),
{
    let seconds = raw.seconds;
    let offset_minutes = raw.offset_minutes;
    let name = match raw.name {
        Some(n) => n,
        None => String::from_str("git-autosnap"),
    };
    let email = match raw.email {
        Some(e) => e,
        None => String::from_str("git-autosnap@local"),
    };
    SignatureData { name, email, seconds, offset_minutes }
}

/// Resolve one raw commit record.
pub fn resolve_commit_info(raw: CommitRaw) -> (r: CommitInfo)
    ensures
        spec_resolved_commit(raw, r),
{
    let message = match raw.message {
        Some(m) => m,
        None => String::new(),
    };
    CommitInfo {
        id: raw.id,
        tree: raw.tree,
        time_seconds: raw.time_seconds,
        message,
        author: resolve_signature(raw.author),
        committer: resolve_signature(raw.committer),
    }
}

/// Resolve a whole history, record by record, order preserved.
pub fn resolve_history(records: Vec<CommitRaw>) -> (r: Vec<CommitInfo>)
    ensures
        r@.len() == records@.len(),
        forall|k: int| 0 <= k < r@.len() ==> spec_resolved_commit(records@[k], #[trigger] r@[k]),
{
    let mut out: Vec<CommitInfo> = Vec::new();
    let mut rest = records;
    let total = rest.len();
    let ghost all = rest@;
    proof {
        assert(all.len() == total);
    }
    let mut i: usize = 0;
    while rest.len() > 0
        invariant
            all.len() <= usize::MAX,
            i == all.len() - rest@.len(),
            0 <= i <= all.len(),
            rest@ =~= all.skip(i as int),
            out@.len() == i,
            forall|k: int| 0 <= k < i ==> spec_resolved_commit(all[k], #[trigger] out@[k]),
        decreases rest@.len(),
    {
        let c = rest.remove(0);
        proof {
            assert(all.skip(i as int)[0] == all[i as int]);
        }
        out.push(resolve_commit_info(c));
        i += 1;
        proof {
            assert(rest@ =~= all.skip(i as int));
        }
    }
    out
}

/// Relies on git2::Repository::discover and ::workdir: the primary
/// repository's working-tree root for the current directory.
#[verifier::external_body]
pub(crate) fn discover_workdir() -> (r: Result<String, ()>) {
    let repo = git2::Repository::discover(".").map_err(|_| ())?;
    let dir = repo.workdir().ok_or(())?;
    let s = dir.to_str().ok_or(())?;
    Ok(s.trim_end_matches('/').to_string())
}

/// Relies on git2::Repository::discover, ::config and Config::get_i64:
/// one integer configuration value of the primary repository.
#[verifier::external_body]
pub(crate) fn discover_config_i64(root: &String, key: &str) -> (r: Option<i64>) {
    let repo = git2::Repository::discover(root.as_str()).ok()?;
    let cfg = repo.config().ok()?;
    cfg.get_i64(key).ok()
}

/// Relies on git2::Repository::discover, ::config and Config::get_string:
/// one string configuration value of the primary repository.
#[verifier::external_body]
pub(crate) fn discover_config_string(root: &String, key: &str) -> (r: Option<String>) {
    let repo = git2::Repository::discover(root.as_str()).ok()?;
    let cfg = repo.config().ok()?;
    cfg.get_string(key).ok()
}

/// Relies on git2::Repository::discover, ::head, Reference::is_branch and
/// ::shorthand: the primary repository's current branch short name, if on
/// a branch.
#[verifier::external_body]
pub(crate) fn discover_head_branch(root: &String) -> (r: Option<String>) {
    let repo = git2::Repository::discover(root.as_str()).ok()?;
    let head = repo.head().ok()?;
    if head.is_branch() {
        head.shorthand().ok().map(|s| s.to_string())
    } else {
        None
    }
}

/// Relies on git2::Repository::init_bare: creates the bare auxiliary store.
#[verifier::external_body]
pub(crate) fn init_bare(path: &String) -> (r: Result<(), GitOpError>) {
    git2::Repository::init_bare(path.as_str()).map(|_| ()).map_err(git_err)
}

/// Relies on git2::Repository::open and ::set_workdir: opens the auxiliary
/// bare store and binds its working-directory pointer to the primary tree
/// (not persisted).
#[verifier::external_body]
pub(crate) fn open_attached(autosnap: &String, root: &String) -> (r: Result<
    git2::Repository,
    GitOpError,
>) {
    let repo = git2::Repository::open(autosnap.as_str()).map_err(git_err)?;
    repo.set_workdir(std::path::Path::new(root.as_str()), false).map_err(git_err)?;
    Ok(repo)
}

/// Relies on git2::Repository::open: opens the auxiliary bare store
/// without binding a working tree.
#[verifier::external_body]
pub(crate) fn open_repo(path: &String) -> (r: Result<git2::Repository, GitOpError>) {
    git2::Repository::open(path.as_str()).map_err(git_err)
}

/// Relies on git2::Repository::is_bare.
#[verifier::external_body]
pub(crate) fn repo_is_bare(repo: &git2::Repository) -> (r: bool) {
    repo.is_bare()
}

/// Relies on git2::Repository::index: the repository's index object.
#[verifier::external_body]
pub(crate) fn repo_index(repo: &git2::Repository) -> (r: Result<git2::Index, GitOpError>) {
    repo.index().map_err(git_err)
}

/// Relies on git2::Index::len and ::get: the paths of all index entries;
/// an entry that is not UTF-8 is an error, as the synthesizer requires.
#[verifier::external_body]
pub(crate) fn index_paths(idx: &git2::Index) -> (r: Result<Vec<String>, GitOpError>) {
    let mut out = Vec::new();
    for entry in (0..idx.len()).filter_map(|i| idx.get(i)) {
        match std::str::from_utf8(&entry.path) {
            Ok(s) => out.push(s.to_string()),
            Err(_) => return Err(git_err(git2::Error::from_str("invalid UTF-8 in index path"))),
        }
    }
    Ok(out)
}

/// Relies on git2::Repository::statuses with untracked files included,
/// untracked directories recursed, submodules excluded and no stat
/// refresh, and on Status::WT_NEW to keep only untracked entries:
/// the untracked-but-not-ignored paths of the working tree.
#[verifier::external_body]
pub(crate) fn status_new_paths(repo: &git2::Repository) -> (r: Result<Vec<String>, GitOpError>) {
    let mut opts = git2::StatusOptions::new();
    opts.include_untracked(true).recurse_untracked_dirs(true).exclude_submodules(true).no_refresh(
        true,
    );
    let statuses = repo.statuses(Some(&mut opts)).map_err(git_err)?;
    let mut out = Vec::new();
    for entry in statuses.iter().filter(|e| e.status().contains(git2::Status::WT_NEW)) {
        match std::str::from_utf8(entry.path_bytes()) {
            Ok(s) => out.push(s.to_string()),
            Err(_) => return Err(git_err(git2::Error::from_str("invalid UTF-8 in status path"))),
        }
    }
    Ok(out)
}

/// Relies on git2::Index::update_all over the whole tree: refreshes the
/// entries already tracked, dropping those whose files are gone.
#[verifier::external_body]
pub(crate) fn index_update_all(idx: &mut git2::Index) -> (r: Result<(), GitOpError>) {
    idx.update_all(["."].iter(), None).map_err(git_err)
}

/// Relies on git2::Index::add_all over the whole tree, honoring ignore
/// rules.
#[verifier::external_body]
pub(crate) fn index_add_all(idx: &mut git2::Index) -> (r: Result<(), GitOpError>) {
    idx.add_all(["."].iter(), git2::IndexAddOption::DEFAULT, None).map_err(git_err)
}

/// Relies on git2::Index::remove_all: purges every entry matching one of
/// the given pathspecs.
#[verifier::external_body]
pub(crate) fn index_remove_all(idx: &mut git2::Index, pats: &Vec<String>) -> (r: Result<
    (),
    GitOpError,
>) {
    idx.remove_all(pats.iter(), None).map_err(git_err)
}

/// Relies on git2::Index::add_path: adds one working-tree file.
#[verifier::external_body]
pub(crate) fn index_add_path(idx: &mut git2::Index, path: &String) -> (r: Result<(), GitOpError>) {
    idx.add_path(std::path::Path::new(path.as_str())).map_err(git_err)
}

/// Relies on git2::Index::remove_path: removes one entry.
#[verifier::external_body]
pub(crate) fn index_remove_path(idx: &mut git2::Index, path: &String) -> (r: Result<
    (),
    GitOpError,
>) {
    idx.remove_path(std::path::Path::new(path.as_str())).map_err(git_err)
}

/// Relies on git2::Index::write: persists the index.
#[verifier::external_body]
pub(crate) fn index_write(idx: &mut git2::Index) -> (r: Result<(), GitOpError>) {
    idx.write().map_err(git_err)
}

/// Relies on git2::Index::write_tree: writes the tree the index describes
/// and hands back its hex identifier.
#[verifier::external_body]
pub(crate) fn index_write_tree(idx: &mut git2::Index) -> (r: Result<String, GitOpError>) {
    idx.write_tree().map(|oid| oid.to_string()).map_err(git_err)
}

/// Relies on git2::Repository::head, Reference::target,
/// ::find_commit and Commit::tree_id: the reference's commit and tree hex
/// identifiers; `None` for an unborn reference.
#[verifier::external_body]
pub(crate) fn head_info(repo: &git2::Repository) -> (r: Result<Option<(String, String)>, ()>) {
    match repo.head() {
        Ok(head) => match head.target() {
            Some(oid) => {
                let commit = repo.find_commit(oid).map_err(|_| ())?;
                Ok(Some((oid.to_string(), commit.tree_id().to_string())))
            },
            None => Ok(None),
        },
        Err(_) => Ok(None),
    }
}

/// Relies on git2::Oid::from_str and Repository::find_tree: resolves a
/// tree by its hex identifier.
#[verifier::external_body]
pub(crate) fn find_tree_err<'a>(repo: &'a git2::Repository, hex: &String) -> (r: Result<
    git2::Tree<'a>,
    GitOpError,
>) {
    let oid = git2::Oid::from_str(hex.as_str()).map_err(git_err)?;
    repo.find_tree(oid).map_err(git_err)
}

/// Relies on git2::Oid::from_str and Repository::find_commit: resolves
/// the optional parent by its hex identifier; no identifier resolves to
/// no parent, so the commit built from it is parentless.
#[verifier::external_body]
pub(crate) fn find_parent<'a>(repo: &'a git2::Repository, hex: &Option<String>) -> (r: Result<
    Option<git2::Commit<'a>>,
    GitOpError,
>)
    ensures
        match r {
            Ok(p) => hex is Some || p is None,
            Err(_) => hex is Some,
        },
{
    match hex {
        Some(h) => {
            let oid = git2::Oid::from_str(h.as_str()).map_err(git_err)?;
            repo.find_commit(oid).map(Some).map_err(git_err)
        },
        None => Ok(None),
    }
}

/// Relies on git2::Signature::now: an identity stamped with the current
/// time.
#[verifier::external_body]
pub(crate) fn sig_now(name: &String, email: &String) -> (r: Result<
    git2::Signature<'static>,
    GitOpError,
>) {
    git2::Signature::now(name.as_str(), email.as_str()).map_err(git_err)
}

/// Relies on git2::Signature::new with an explicit Time: an identity with
/// its timestamp and offset copied verbatim.
#[verifier::external_body]
pub(crate) fn sig_at(d: &SignatureData) -> (r: Result<git2::Signature<'static>, GitOpError>) {
    let when = git2::Time::new(d.seconds, d.offset_minutes);
    git2::Signature::new(d.name.as_str(), d.email.as_str(), &when).map_err(git_err)
}

/// Relies on git2::Repository::commit: creates the commit with the given
/// parties, tree and sole optional parent; `on_head` moves the reference.
#[verifier::external_body]
pub(crate) fn git_commit(
    repo: &git2::Repository,
    on_head: bool,
    author: &git2::Signature<'_>,
    committer: &git2::Signature<'_>,
    message: &String,
    tree: &git2::Tree<'_>,
    parent: &Option<git2::Commit<'_>>,
) -> (r: Result<String, GitOpError>) {
    let parents: Vec<&git2::Commit> = parent.iter().collect();
    let target = if on_head { Some("HEAD") } else { None };
    repo.commit(target, author, committer, message.as_str(), tree, &parents).map(
        |oid| oid.to_string(),
    ).map_err(git_err)
}

/// Create the snapshot commit: the given tree and sole parent, the
/// identity stamped now, the reference moved.
pub(crate) fn create_commit_now(
    repo: &git2::Repository,
    tree_hex: &String,
    parent_hex: &Option<String>,
    name: &String,
    email: &String,
    message: &String,
) -> (r: Result<String, GitOpError>) {
    let tree = match find_tree_err(repo, tree_hex) {
        Ok(t) => t,
        Err(e) => {
            return Err(e);
        },
    };
    let sig = match sig_now(name, email) {
        Ok(s) => s,
        Err(e) => {
            return Err(e);
        },
    };
    let parent = match find_parent(repo, parent_hex) {
        Ok(p) => p,
        Err(e) => {
            return Err(e);
        },
    };
    git_commit(repo, true, &sig, &sig, message, &tree, &parent)
}

/// Create one replayed (or baseline) commit: tree by reference, message,
/// identities and timestamps copied verbatim, no reference update.
pub(crate) fn commit_raw(
    repo: &git2::Repository,
    tree_hex: &String,
    parent_hex: &Option<String>,
    message: &String,
    author: &SignatureData,
    committer: &SignatureData,
) -> (r: Result<String, GitOpError>) {
    let tree = match find_tree_err(repo, tree_hex) {
        Ok(t) => t,
        Err(e) => {
            return Err(e);
        },
    };
    let a = match sig_at(author) {
        Ok(s) => s,
        Err(e) => {
            return Err(e);
        },
    };
    let c = match sig_at(committer) {
        Ok(s) => s,
        Err(e) => {
            return Err(e);
        },
    };
    let parent = match find_parent(repo, parent_hex) {
        Ok(p) => p,
        Err(e) => {
            return Err(e);
        },
    };
    git_commit(repo, false, &a, &c, message, &tree, &parent)
}

/// Relies on git2::Repository::find_object and Object::short_id: the
/// abbreviated identifier of a commit.
#[verifier::external_body]
pub(crate) fn short_id(repo: &git2::Repository, oid_hex: &String) -> (r: Result<String, ()>) {
    let oid = git2::Oid::from_str(oid_hex.as_str()).map_err(|_| ())?;
    let obj = repo.find_object(oid, None).map_err(|_| ())?;
    let short = obj.short_id().map_err(|_| ())?;
    short.as_str().map(|s| s.to_string()).map_err(|_| ())
}

/// Relies on git2::Repository::revwalk pushed at the reference, walked
/// and reversed into oldest-first order, with every commit copied into
/// raw plain-value records; an unborn reference yields the empty history.
#[verifier::external_body]
pub(crate) fn list_commits_oldest_first(repo: &git2::Repository) -> (r: Result<
    Vec<CommitRaw>,
    GitOpError,
>) {
    let mut walk = repo.revwalk().map_err(git_err)?;
    if walk.push_head().is_err() {
        return Ok(Vec::new());
    }
    let mut out = Vec::new();
    for oid in walk {
        let c = repo.find_commit(oid.map_err(git_err)?).map_err(git_err)?;
        out.push(read_commit(&c));
    }
    out.reverse();
    Ok(out)
}

/// Relies on git2::Commit::id, ::tree_id, ::time and ::message, and on
/// the signature accessors: one commit copied into plain values; a
/// non-text message comes through as absent.
#[verifier::external_body]
fn read_commit(c: &git2::Commit<'_>) -> (r: CommitRaw) {
    CommitRaw {
        id: c.id().to_string(),
        tree: c.tree_id().to_string(),
        time_seconds: c.time().seconds(),
        message: c.message().ok().map(|m| m.to_string()),
        author: sig_raw(&c.author()),
        committer: sig_raw(&c.committer()),
    }
}

/// Relies on git2::Repository::find_reference("HEAD") and
/// Reference::symbolic_target: the name the reference points at, if
/// symbolic.
#[verifier::external_body]
pub(crate) fn head_symbolic_target(repo: &git2::Repository) -> (r: Result<Option<String>, ()>) {
    let head = repo.find_reference("HEAD").map_err(|_| ())?;
    Ok(head.symbolic_target().ok().flatten().map(|s| s.to_string()))
}

/// Relies on git2::Repository::find_reference and Reference::set_target,
/// or Repository::reference to create the reference when it does not
/// resolve yet; the reflog message names the compaction.
#[verifier::external_body]
pub(crate) fn ref_set_target(repo: &git2::Repository, name: &String, hex: &String) -> (r: Result<
    (),
    GitOpError,
>) {
    let oid = git2::Oid::from_str(hex.as_str()).map_err(git_err)?;
    match repo.find_reference(name.as_str()) {
        Ok(mut reference) => {
            reference.set_target(oid, "autosnap compact").map(|_| ()).map_err(git_err)
        },
        Err(_) => {
            repo.reference(name.as_str(), oid, true, "autosnap compact").map(|_| ()).map_err(
                git_err,
            )
        },
    }
}

/// Relies on git2::Repository::find_reference("HEAD") and
/// Reference::set_target: points a detached reference at the commit.
#[verifier::external_body]
pub(crate) fn head_set_target(repo: &git2::Repository, hex: &String) -> (r: Result<
    (),
    GitOpError,
>) {
    let oid = git2::Oid::from_str(hex.as_str()).map_err(git_err)?;
    let mut head = repo.find_reference("HEAD").map_err(git_err)?;
    head.set_target(oid, "autosnap compact").map(|_| ()).map_err(git_err)
}

/// Relies on tokio::process::Command run to completion on a throwaway
/// runtime: invokes the `git` tool on the auxiliary store for
/// post-compaction maintenance; `Ok(true)` means exit status zero.
/// Building a runtime panics on a thread that is already inside one, so
/// this must be called from synchronous contexts only - it is reached
/// solely through `compact` and `gc`, which the command layer runs on the
/// plain foreground thread.
#[verifier::external_body]
pub(crate) fn run_git(git_dir: &String, args: &Vec<String>) -> (r: Result<bool, ()>) {
    let rt = tokio::runtime::Builder::new_current_thread().enable_all().build().map_err(|_| ())?;
    let mut dir_arg = String::from("--git-dir=");
    dir_arg.push_str(git_dir.as_str());
    let mut cmd = tokio::process::Command::new("git");
    cmd.arg(&dir_arg).args(args.iter());
    let status_fut = {
        // The child must be spawned inside the runtime's context.
        let _ctx = rt.enter();
        cmd.status()
    };
    let status = rt.block_on(status_fut).map_err(|_| ())?;
    Ok(status.success())
}

} // verus!
