//! The index synthesizer: builds the auxiliary store's in-memory tree from
//! the primary working tree, honoring ignore rules, with hard excludes for
//! the metadata directories and a bounded retry loop for filesystem races.

use vstd::prelude::*;
use crate::errors::AutosnapError;
use crate::fsio;
use crate::gitio::{self, GitOpError};
use crate::text;

verus! {

/// Paths never admitted into a snapshot: the primary and auxiliary
/// metadata directories, and anything under them.
pub open spec fn spec_should_skip(p: Seq<char>) -> bool {
    p == ".git"@ || p == ".autosnap"@ || (p.len() >= 5 && p.take(5) == ".git/"@) || (p.len() >= 10
        && p.take(10) == ".autosnap/"@)
}

/// Whether a path is excluded from indexing unconditionally.
pub fn should_skip_path(p: &String) -> (r: bool)
    ensures
        r == spec_should_skip(p@),
{
    proof {
        reveal_strlit(".git");
        reveal_strlit(".autosnap");
        reveal_strlit(".git/");
        reveal_strlit(".autosnap/");
    }
    text::str_eq_str(p.as_str(), ".git") || text::str_eq_str(p.as_str(), ".autosnap")
        || text::str_has_prefix(p.as_str(), ".git/") || text::str_has_prefix(
        p.as_str(),
        ".autosnap/",
    )
}

/// The predicate that keeps a path in the synthesized tree.
pub open spec fn spec_keep_path(p: Seq<char>) -> bool {
    !spec_should_skip(p)
}

/// Whether some string of `v` holds exactly the characters `p`.
pub open spec fn spec_has_path(v: Seq<String>, p: Seq<char>) -> bool {
    exists|j: int| 0 <= j < v.len() && #[trigger] v[j]@ == p
}

/// Whether some string in `v` holds exactly the characters of `x`.
fn contains_str(v: &Vec<String>, x: &String) -> (r: bool)
    ensures
        r == spec_has_path(v@, x@),
{
    let mut i: usize = 0;
    while i < v.len()
        invariant
            0 <= i <= v@.len(),
            forall|k: int| 0 <= k < i ==> #[trigger] v@[k]@ != x@,
        decreases v@.len() - i,
    {
        if text::str_eq_str(v[i].as_str(), x.as_str()) {
            proof {
                assert(v@[i as int]@ == x@);
            }
            return true;
        }
        i += 1;
    }
    false
}

/// Append every path of `v` that may enter the tree and is not already in
/// `out`: `out` stays duplicate-free and skip-free, keeps its existing
/// entries in place, covers every keepable path of `v`, and gains only
/// paths of `v`.
fn push_kept_missing(out: &mut Vec<String>, v: &Vec<String>)
    requires
        forall|i: int, j: int| 0 <= i < j < old(out)@.len() ==> #[trigger] old(out)@[i]@
            != #[trigger] old(out)@[j]@,
        forall|k: int| 0 <= k < old(out)@.len() ==> !spec_should_skip(#[trigger] old(out)@[k]@),
    ensures
        forall|i: int, j: int| 0 <= i < j < final(out)@.len() ==> #[trigger] final(out)@[i]@
            != #[trigger] final(out)@[j]@,
        forall|k: int| 0 <= k < final(out)@.len() ==> !spec_should_skip(#[trigger] final(out)@[k]@),
        final(out)@.len() >= old(out)@.len(),
        forall|k: int| 0 <= k < old(out)@.len() ==> #[trigger] final(out)@[k] == old(out)@[k],
        forall|k: int|
            0 <= k < v@.len() && spec_keep_path(#[trigger] v@[k]@) ==> spec_has_path(
                final(out)@,
                v@[k]@,
            ),
        forall|k: int|
            old(out)@.len() <= k < final(out)@.len() ==> spec_has_path(
                v@,
                #[trigger] final(out)@[k]@,
            ),
{
    let base = out.len();
    let mut i: usize = 0;
    while i < v.len()
        invariant
            0 <= i <= v@.len(),
            base <= out@.len(),
            forall|ii: int, jj: int| 0 <= ii < jj < out@.len() ==> #[trigger] out@[ii]@
                != #[trigger] out@[jj]@,
            forall|k: int| 0 <= k < out@.len() ==> !spec_should_skip(#[trigger] out@[k]@),
            forall|k: int| 0 <= k < base ==> #[trigger] out@[k] == old(out)@[k],
            base == old(out)@.len(),
            forall|k: int|
                0 <= k < i && spec_keep_path(#[trigger] v@[k]@) ==> spec_has_path(out@, v@[k]@),
            forall|k: int| base <= k < out@.len() ==> spec_has_path(v@, #[trigger] out@[k]@),
        decreases v@.len() - i,
    {
        let skip = should_skip_path(&v[i]);
        if !skip && !contains_str(out, &v[i]) {
            let ghost prev = out@;
            let copy = text::string_copy(&v[i]);
            out.push(copy);
            proof {
                assert(out@[out@.len() - 1]@ == v@[i as int]@);
                assert forall|ii: int, jj: int| 0 <= ii < jj < out@.len() implies
                    #[trigger] out@[ii]@ != #[trigger] out@[jj]@ by {
                    if jj == out@.len() - 1 {
                        assert(!spec_has_path(prev, v@[i as int]@));
                        assert(out@[ii] == prev[ii]);
                    }
                }
                // Earlier coverage witnesses sit unmoved below the push.
                assert forall|k: int|
                    0 <= k < i && spec_keep_path(#[trigger] v@[k]@) implies spec_has_path(
                    out@,
                    v@[k]@,
                ) by {
                    let j = choose|j: int| 0 <= j < prev.len() && #[trigger] prev[j]@ == v@[k]@;
                    assert(out@[j] == prev[j]);
                }
            }
        }
        proof {
            if spec_keep_path(v@[i as int]@) {
                assert(spec_has_path(out@, v@[i as int]@));
            }
        }
        i += 1;
    }
}

/// The union the synthesizer indexes: the paths already in the index and
/// the untracked-but-not-ignored paths, with the metadata directories
/// unconditionally dropped and duplicates removed (first occurrence kept).
/// Enumeration order carries no meaning: the tree write sorts its entries
/// itself.
pub fn merge_paths(indexed: &Vec<String>, untracked: &Vec<String>) -> (r: Vec<String>)
    ensures
        forall|k: int| 0 <= k < r@.len() ==> !spec_should_skip(#[trigger] r@[k]@),
        forall|i: int, j: int| 0 <= i < j < r@.len() ==> #[trigger] r@[i]@ != #[trigger] r@[j]@,
        forall|k: int|
            0 <= k < indexed@.len() && spec_keep_path(#[trigger] indexed@[k]@) ==> spec_has_path(
                r@,
                indexed@[k]@,
            ),
        forall|k: int|
            0 <= k < untracked@.len() && spec_keep_path(#[trigger] untracked@[k]@)
                ==> spec_has_path(r@, untracked@[k]@),
        forall|k: int|
            0 <= k < r@.len() ==> (spec_has_path(indexed@, #[trigger] r@[k]@) || spec_has_path(
                untracked@,
                r@[k]@,
            )),
{
    let mut out: Vec<String> = Vec::new();
    push_kept_missing(&mut out, indexed);
    let ghost mid = out@;
    push_kept_missing(&mut out, untracked);
    proof {
        // Entries placed for `indexed` sit unmoved below `mid.len()`, so
        // its coverage carries over; everything above came from one list.
        assert forall|k: int|
            0 <= k < indexed@.len() && spec_keep_path(#[trigger] indexed@[k]@) implies
            spec_has_path(out@, indexed@[k]@) by {
            let j = choose|j: int| 0 <= j < mid.len() && #[trigger] mid[j]@ == indexed@[k]@;
            assert(out@[j] == mid[j]);
        }
        assert forall|k: int| 0 <= k < out@.len() implies (spec_has_path(
            indexed@,
            #[trigger] out@[k]@,
        ) || spec_has_path(untracked@, out@[k]@)) by {
            if k < mid.len() {
                assert(out@[k] == mid[k]);
            }
        }
    }
    out
}

/// Whether the synthesizer may take the fast path: the repository carries
/// a working-tree binding (not bare) and the primary metadata directory is
/// present; otherwise the wholesale fallback runs.
pub fn discovery_mode(bare: bool, primary_meta_present: bool) -> (fast: bool)
    ensures
        fast == (!bare && primary_meta_present),
{
    !bare && primary_meta_present
}

/// Build the auxiliary index from the working tree bound to `repo`.
///
/// The fast path enumerates the index and a status walk and reconciles
/// entry by entry; when the repository has no working-tree binding the
/// fallback reindexes wholesale and purges the metadata directories.
pub fn build_index(
    repo: &git2::Repository,
    idx: &mut git2::Index,
    repo_root: &String,
) -> (r: Result<(), GitOpError>) {
    let git_dir = git_dir_of(repo_root);
    let fast = discovery_mode(gitio::repo_is_bare(repo), fsio::sys_path_exists(git_dir.as_str()));
    if fast {
        let indexed = match gitio::index_paths(idx) {
            Ok(v) => v,
            Err(e) => {
                return Err(e);
            },
        };
        let untracked = match gitio::status_new_paths(repo) {
            Ok(v) => v,
            Err(e) => {
                return Err(e);
            },
        };
        let files = merge_paths(&indexed, &untracked);
        if let Err(e) = gitio::index_update_all(idx) {
            return Err(e);
        }
        // Remove index entries whose paths left the union.
        let mut i: usize = 0;
        while i < indexed.len()
            invariant
                0 <= i <= indexed@.len(),
            decreases indexed@.len() - i,
        {
            if !should_skip_path(&indexed[i]) && !contains_str(&files, &indexed[i]) {
                if let Err(e) = gitio::index_remove_path(idx, &indexed[i]) {
                    return Err(e);
                }
            }
            i += 1;
        }
        // Add new files; a path that races away mid-add is simply skipped.
        let mut j: usize = 0;
        while j < files.len()
            invariant
                0 <= j <= files@.len(),
            decreases files@.len() - j,
        {
            let _ = gitio::index_add_path(idx, &files[j]);
            j += 1;
        }
        gitio::index_write(idx)
    } else {
        if let Err(e) = gitio::index_update_all(idx) {
            return Err(e);
        }
        if let Err(e) = gitio::index_add_all(idx) {
            return Err(e);
        }
        let mut pats: Vec<String> = Vec::new();
        pats.push(String::from_str(".autosnap"));
        pats.push(String::from_str(".git"));
        let _ = gitio::index_remove_all(idx, &pats);
        gitio::index_write(idx)
    }
}

/// The primary store's metadata directory under the root.
fn git_dir_of(repo_root: &String) -> (r: String)
    ensures
        r@ == repo_root@ + "/.git"@,
{
    let mut s = String::new();
    s.append(repo_root.as_str());
    s.append("/.git");
    proof {
        assert(s@ =~= repo_root@ + "/.git"@);
    }
    s
}

/// Build the index and write the tree out once.
pub fn try_write_tree(repo: &git2::Repository, repo_root: &String) -> (r: Result<
    String,
    GitOpError,
>) {
    let mut idx = match gitio::repo_index(repo) {
        Ok(idx) => idx,
        Err(e) => {
            return Err(e);
        },
    };
    if let Err(e) = build_index(repo, &mut idx, repo_root) {
        return Err(e);
    }
    gitio::index_write_tree(&mut idx)
}

/// The lowercase phrase that marks a mid-read file change in a message.
pub open spec fn spec_race_phrase() -> Seq<u8> {
    seq![
        102u8, 105u8, 108u8, 101u8, 32u8, 99u8, 104u8, 97u8, 110u8, 103u8, 101u8, 100u8, 32u8,
        98u8, 101u8, 102u8, 111u8, 114u8, 101u8, 32u8, 119u8, 101u8, 32u8, 99u8, 111u8, 117u8,
        108u8, 100u8, 32u8, 114u8, 101u8, 97u8, 100u8, 32u8, 105u8, 116u8,
    ]
}

/// The phrase, as bytes.
fn race_phrase() -> (r: Vec<u8>)
    ensures
        r@ == spec_race_phrase(),
{
    let mut v: Vec<u8> = Vec::new();
    v.push(102);
    v.push(105);
    v.push(108);
    v.push(101);
    v.push(32);
    v.push(99);
    v.push(104);
    v.push(97);
    v.push(110);
    v.push(103);
    v.push(101);
    v.push(100);
    v.push(32);
    v.push(98);
    v.push(101);
    v.push(102);
    v.push(111);
    v.push(114);
    v.push(101);
    v.push(32);
    v.push(119);
    v.push(101);
    v.push(32);
    v.push(99);
    v.push(111);
    v.push(117);
    v.push(108);
    v.push(100);
    v.push(32);
    v.push(114);
    v.push(101);
    v.push(97);
    v.push(100);
    v.push(32);
    v.push(105);
    v.push(116);
    proof {
        assert(v@ =~= spec_race_phrase());
    }
    v
}

/// The retry policy's notion of a transient filesystem race: the
/// filesystem error class, the modified-between-stat-and-read code, or a
/// message containing the race phrase, case-insensitively.
pub open spec fn spec_is_transient(e: &GitOpError) -> bool {
    e.class_filesystem || e.code_modified || text::spec_contains_sub(
        text::spec_lower(e.message@),
        spec_race_phrase(),
    )
}

/// Whether an error is a transient filesystem race worth retrying.
pub fn is_transient_fs_change(e: &GitOpError) -> (r: bool)
    ensures
        r == spec_is_transient(e),
{
    if e.class_filesystem || e.code_modified {
        return true;
    }
    let lower = text::lower_bytes(&e.message);
    let phrase = race_phrase();
    text::contains_sub(&lower, &phrase)
}

/// The backoff that follows `backoff_ms`: doubled, capped at 800 ms.
pub fn next_backoff(backoff_ms: u64) -> (r: u64)
    ensures
        backoff_ms * 2 <= 800 ==> r == backoff_ms * 2,
        backoff_ms * 2 > 800 ==> r == 800,
        r <= 800,
{
    if backoff_ms <= 400 {
        backoff_ms * 2
    } else {
        800
    }
}

/// Synthesize and write the tree, retrying transient filesystem races with
/// exponential backoff; any other error, or exhaustion of the attempt
/// budget, is promoted to an index-build failure. Both the enumeration and
/// the tree write re-run on every attempt.
pub fn write_tree_with_retries(
    repo: &git2::Repository,
    repo_root: &String,
    max_attempts: u32,
    initial_backoff_ms: u64,
) -> (r: Result<String, AutosnapError>)
    requires
        max_attempts >= 1,
    ensures
        r matches Err(e) ==> e matches AutosnapError::IndexBuild { .. },
{
    let mut attempt: u32 = 1;
    let mut backoff: u64 = if initial_backoff_ms > 800 {
        800
    } else {
        initial_backoff_ms
    };
    while attempt <= max_attempts
        invariant
            1 <= attempt,
            backoff <= 800,
        decreases max_attempts - attempt,
    {
        match try_write_tree(repo, repo_root) {
            Ok(tree) => {
                return Ok(tree);
            },
            Err(e) => {
                if is_transient_fs_change(&e) && attempt < max_attempts {
                    fsio::sleep_ms(backoff);
                    backoff = next_backoff(backoff);
                    attempt += 1;
                } else {
                    return Err(
                        AutosnapError::IndexBuild {
                            detail: text::bytes_to_string_lossy(&e.message),
                        },
                    );
                }
            },
        }
    }
    Err(AutosnapError::IndexBuild { detail: String::new() })
}

} // verus!
