//! The compaction engine: under the ops lock, partition history by age,
//! collapse everything older than the cutoff into one parentless baseline,
//! replay the kept commits on top preserving their trees, identities and
//! timestamps, move the reference, and run post-maintenance.
//!
//! The rewrite is specified against a model of the history - tree, time
//! and message of each commit, oldest first - and the laws proved here say
//! the rewrite is idempotent, keeps the head tree, and leaves exactly one
//! baseline.

use vstd::prelude::*;
use crate::errors::AutosnapError;
use crate::fsio;
use crate::gitio::{self, CommitInfo};
use crate::ops_lock;
use crate::repo;
use crate::text;

verus! {

/// Result summary of a compact operation.
pub struct CompactResult {
    pub before_commits: usize,
    pub after_commits: usize,
    pub rewritten: bool,
    pub baseline_created: bool,
}

/// One party of a commit in the model: identity and timestamp.
pub struct SignatureView {
    pub name: Seq<char>,
    pub email: Seq<char>,
    pub seconds: int,
    pub offset_minutes: int,
}

/// What the model keeps of one commit: its tree, its committer time, its
/// message, and both parties verbatim.
pub struct CommitView {
    pub tree: Seq<char>,
    pub time: int,
    pub message: Seq<char>,
    pub author: SignatureView,
    pub committer: SignatureView,
}

/// The model of one commit party.
pub open spec fn spec_view_signature(s: gitio::SignatureData) -> SignatureView {
    SignatureView {
        name: s.name@,
        email: s.email@,
        seconds: s.seconds as int,
        offset_minutes: s.offset_minutes as int,
    }
}

/// The baseline commit's message.
pub open spec fn spec_baseline_msg() -> Seq<char> {
    "AUTOSNAP_COMPACT_BASELINE"@
}

/// The model of one commit.
pub open spec fn spec_view_commit(c: CommitInfo) -> CommitView {
    CommitView {
        tree: c.tree@,
        time: c.time_seconds as int,
        message: c.message@,
        author: spec_view_signature(c.author),
        committer: spec_view_signature(c.committer),
    }
}

/// The model of a history, oldest first.
pub open spec fn spec_view_history(s: Seq<CommitInfo>) -> Seq<CommitView> {
    s.map_values(|c: CommitInfo| spec_view_commit(c))
}

/// Whether a commit falls before the cutoff.
pub open spec fn spec_is_old(c: CommitView, cutoff: int) -> bool {
    c.time < cutoff
}

/// The commits strictly older than the cutoff, oldest first.
pub open spec fn spec_olds(h: Seq<CommitView>, cutoff: int) -> Seq<CommitView> {
    h.filter(|c: CommitView| spec_is_old(c, cutoff))
}

/// The commits kept as they are, oldest first.
pub open spec fn spec_keeps(h: Seq<CommitView>, cutoff: int) -> Seq<CommitView> {
    h.filter(|c: CommitView| !spec_is_old(c, cutoff))
}

/// The baseline synthesized from the youngest old commit: same tree, same
/// committer time, both identities and offsets preserved verbatim, the
/// baseline message. (It is also parentless: the replay starts from it,
/// and its creation hands the library an empty parent set.)
pub open spec fn spec_baseline_of(c: CommitView) -> CommitView {
    CommitView {
        tree: c.tree,
        time: c.time,
        message: spec_baseline_msg(),
        author: c.author,
        committer: c.committer,
    }
}

/// The history the rewrite leaves behind: unchanged when nothing is old;
/// otherwise the baseline of the youngest old commit, then the kept
/// commits in order.
pub open spec fn spec_compact_history(h: Seq<CommitView>, cutoff: int) -> Seq<CommitView> {
    if spec_olds(h, cutoff).len() == 0 {
        h
    } else {
        seq![spec_baseline_of(spec_olds(h, cutoff).last())] + spec_keeps(h, cutoff)
    }
}

/// A history whose committer times never decrease, oldest first.
pub open spec fn spec_sorted(h: Seq<CommitView>) -> bool {
    forall|i: int, j: int| 0 <= i <= j < h.len() ==> #[trigger] h[i].time <= #[trigger] h[j].time
}

/// How many reachable commits carry the baseline message.
pub open spec fn spec_count_baseline(h: Seq<CommitView>) -> int {
    h.filter(|c: CommitView| c.message == spec_baseline_msg()).len() as int
}

/// Filtering a sequence whose last element satisfies the predicate keeps
/// that element last.
proof fn lemma_filter_keeps_last<A>(s: Seq<A>, pred: spec_fn(A) -> bool)
    requires
        s.len() > 0,
        pred(s.last()),
    ensures
        s.filter(pred).len() > 0,
        s.filter(pred).last() == s.last(),
{
    reveal(Seq::filter);
}

/// Every element of a filtered sequence occurs in the original.
proof fn lemma_filter_in_original<A>(s: Seq<A>, pred: spec_fn(A) -> bool, i: int)
    requires
        0 <= i < s.filter(pred).len(),
    ensures
        s.contains(s.filter(pred)[i]),
    decreases s.len(),
{
    reveal(Seq::filter);
    if s.len() > 0 {
        if pred(s.last()) && i == s.filter(pred).len() - 1 {
            assert(s.filter(pred)[i] == s.last());
            assert(s[s.len() - 1] == s.last());
        } else {
            lemma_filter_in_original(s.drop_last(), pred, i);
            let j = choose|j: int|
                0 <= j < s.drop_last().len() && s.drop_last()[j] == s.drop_last().filter(pred)[i];
            assert(s[j] == s.filter(pred)[i]);
        }
    }
}

/// Filtering by a predicate no element satisfies leaves nothing.
proof fn lemma_filter_none<A>(s: Seq<A>, pred: spec_fn(A) -> bool)
    requires
        forall|i: int| 0 <= i < s.len() ==> !pred(#[trigger] s[i]),
    ensures
        s.filter(pred) == Seq::<A>::empty(),
    decreases s.len(),
{
    reveal(Seq::filter);
    if s.len() > 0 {
        lemma_filter_none(s.drop_last(), pred);
    }
}

/// Filtering by a predicate every element satisfies changes nothing.
proof fn lemma_filter_all<A>(s: Seq<A>, pred: spec_fn(A) -> bool)
    requires
        forall|i: int| 0 <= i < s.len() ==> pred(#[trigger] s[i]),
    ensures
        s.filter(pred) == s,
    decreases s.len(),
{
    reveal(Seq::filter);
    if s.len() > 0 {
        lemma_filter_all(s.drop_last(), pred);
        assert(s.filter(pred) =~= s);
    }
}

/// Filtering distributes over concatenation.
proof fn lemma_filter_concat<A>(a: Seq<A>, b: Seq<A>, pred: spec_fn(A) -> bool)
    ensures
        (a + b).filter(pred) == a.filter(pred) + b.filter(pred),
    decreases b.len(),
{
    reveal(Seq::filter);
    if b.len() == 0 {
        assert(a + b =~= a);
        assert(a.filter(pred) + b.filter(pred) =~= a.filter(pred));
    } else {
        lemma_filter_concat(a, b.drop_last(), pred);
        assert((a + b).drop_last() =~= a + b.drop_last());
        if pred(b.last()) {
            assert((a + b).filter(pred) =~= a.filter(pred) + b.filter(pred));
        } else {
            assert((a + b).filter(pred) =~= a.filter(pred) + b.filter(pred));
        }
    }
}

/// Compaction is idempotent on the reachable history: a second rewrite
/// with the same cutoff reproduces the first rewrite's history exactly -
/// same commit count, same trees, same head.
pub proof fn lemma_compact_idempotent(h: Seq<CommitView>, cutoff: int)
    ensures
        spec_compact_history(spec_compact_history(h, cutoff), cutoff) == spec_compact_history(
            h,
            cutoff,
        ),
{
    let old_pred = |c: CommitView| spec_is_old(c, cutoff);
    let keep_pred = |c: CommitView| !spec_is_old(c, cutoff);
    let olds = spec_olds(h, cutoff);
    let keeps = spec_keeps(h, cutoff);
    if olds.len() == 0 {
    } else {
        let base = spec_baseline_of(olds.last());
        let r = spec_compact_history(h, cutoff);
        assert(r == seq![base] + keeps);
        // Every kept commit is young; the baseline is old.
        assert forall|i: int| 0 <= i < keeps.len() implies !old_pred(#[trigger] keeps[i]) by {
            h.lemma_filter_pred(keep_pred, i);
        }
        h.lemma_filter_pred(old_pred, olds.len() - 1);
        assert(old_pred(base));
        lemma_filter_concat(seq![base], keeps, old_pred);
        lemma_filter_none(keeps, old_pred);
        assert(seq![base].filter(old_pred) =~= seq![base]) by {
            reveal(Seq::filter);
            assert(seq![base].drop_last() =~= Seq::<CommitView>::empty());
        }
        assert(spec_olds(r, cutoff) =~= seq![base]);
        lemma_filter_concat(seq![base], keeps, keep_pred);
        lemma_filter_all(keeps, keep_pred);
        assert(seq![base].filter(keep_pred) =~= Seq::<CommitView>::empty()) by {
            reveal(Seq::filter);
            assert(seq![base].drop_last() =~= Seq::<CommitView>::empty());
        }
        assert(spec_keeps(r, cutoff) =~= keeps);
        assert(spec_baseline_of(base) == base);
        assert(spec_compact_history(r, cutoff) =~= seq![base] + keeps);
    }
}

/// The rewrite preserves the head tree: the newest reachable commit's tree
/// is the same before and after, for a history whose times never decrease.
pub proof fn lemma_compact_preserves_head_tree(h: Seq<CommitView>, cutoff: int)
    requires
        h.len() > 0,
        spec_sorted(h),
    ensures
        spec_compact_history(h, cutoff).len() > 0,
        spec_compact_history(h, cutoff).last().tree == h.last().tree,
{
    let old_pred = |c: CommitView| spec_is_old(c, cutoff);
    let keep_pred = |c: CommitView| !spec_is_old(c, cutoff);
    let olds = spec_olds(h, cutoff);
    let keeps = spec_keeps(h, cutoff);
    if olds.len() == 0 {
    } else {
        if h.last().time < cutoff {
            // Everything is old: the baseline carries the newest tree.
            assert forall|i: int| 0 <= i < h.len() implies old_pred(#[trigger] h[i]) by {
                assert(h[i].time <= h[h.len() - 1].time);
            }
            lemma_filter_all(h, old_pred);
            lemma_filter_none(h, keep_pred);
            assert(olds.last() == h.last());
            assert(spec_compact_history(h, cutoff) =~= seq![spec_baseline_of(h.last())]);
        } else {
            lemma_filter_keeps_last(h, keep_pred);
            assert(keeps.last() == h.last());
            assert((seq![spec_baseline_of(olds.last())] + keeps).last() == keeps.last());
        }
    }
}

/// After a rewrite that created a baseline, exactly one reachable commit
/// carries the baseline message - provided every baseline already in the
/// history is older than the cutoff, which holds because a prior baseline
/// carries its source's timestamp.
pub proof fn lemma_compact_single_baseline(h: Seq<CommitView>, cutoff: int)
    requires
        spec_olds(h, cutoff).len() > 0,
        forall|i: int|
            0 <= i < h.len() && (#[trigger] h[i]).message == spec_baseline_msg() ==> h[i].time
                < cutoff,
    ensures
        spec_count_baseline(spec_compact_history(h, cutoff)) == 1,
{
    let base_pred = |c: CommitView| c.message == spec_baseline_msg();
    let keep_pred = |c: CommitView| !spec_is_old(c, cutoff);
    let olds = spec_olds(h, cutoff);
    let keeps = spec_keeps(h, cutoff);
    let base = spec_baseline_of(olds.last());
    // No kept commit is a baseline: kept commits are young, baselines old.
    assert forall|i: int| 0 <= i < keeps.len() implies !base_pred(#[trigger] keeps[i]) by {
        h.lemma_filter_pred(keep_pred, i);
        lemma_filter_in_original(h, keep_pred, i);
        let j = choose|j: int| 0 <= j < h.len() && h[j] == keeps[i];
        assert(h[j].message == keeps[i].message);
    }
    lemma_filter_concat(seq![base], keeps, base_pred);
    lemma_filter_none(keeps, base_pred);
    assert(base_pred(base));
    assert(seq![base].filter(base_pred) =~= seq![base]) by {
        reveal(Seq::filter);
        assert(seq![base].drop_last() =~= Seq::<CommitView>::empty());
    }
    assert(spec_compact_history(h, cutoff).filter(base_pred) =~= seq![base]);
}

/// Filtering preserves sortedness: kept elements stay in time order.
proof fn lemma_filter_sorted(s: Seq<CommitView>, pred: spec_fn(CommitView) -> bool)
    requires
        spec_sorted(s),
    ensures
        spec_sorted(s.filter(pred)),
    decreases s.len(),
{
    reveal(Seq::filter);
    if s.len() > 0 {
        lemma_filter_sorted(s.drop_last(), pred);
        let f = s.filter(pred);
        let fd = s.drop_last().filter(pred);
        assert forall|i: int, j: int| 0 <= i <= j < f.len() implies #[trigger] f[i].time
            <= #[trigger] f[j].time by {
            if pred(s.last()) && j == f.len() - 1 {
                // The appended last element outranks whatever precedes it.
                if i < j {
                    lemma_filter_in_original(s.drop_last(), pred, i);
                    let k = choose|k: int|
                        0 <= k < s.drop_last().len() && s.drop_last()[k] == fd[i];
                    assert(s[k].time <= s.last().time);
                }
            } else {
                assert(f[i] == fd[i] && f[j] == fd[j]);
            }
        }
    }
}

/// A filtered sequence with nothing in it has no satisfying element.
proof fn lemma_filter_empty_no_witness(
    s: Seq<CommitView>,
    pred: spec_fn(CommitView) -> bool,
    i: int,
)
    requires
        s.filter(pred).len() == 0,
        0 <= i < s.len(),
    ensures
        !pred(s[i]),
{
    if pred(s[i]) {
        s.lemma_filter_contains(pred, i);
    }
}

/// The rewrite keeps the history sorted: the baseline is older than every
/// kept commit, and kept commits keep their order.
proof fn lemma_compact_sorted(h: Seq<CommitView>, cutoff: int)
    requires
        spec_sorted(h),
    ensures
        spec_sorted(spec_compact_history(h, cutoff)),
{
    let old_pred = |c: CommitView| spec_is_old(c, cutoff);
    let keep_pred = |c: CommitView| !spec_is_old(c, cutoff);
    let olds = spec_olds(h, cutoff);
    let keeps = spec_keeps(h, cutoff);
    if olds.len() > 0 {
        let base = spec_baseline_of(olds.last());
        let r = seq![base] + keeps;
        lemma_filter_sorted(h, keep_pred);
        h.lemma_filter_pred(old_pred, olds.len() - 1);
        assert forall|i: int, j: int| 0 <= i <= j < r.len() implies #[trigger] r[i].time
            <= #[trigger] r[j].time by {
            if 0 < j {
                h.lemma_filter_pred(keep_pred, j - 1);
                assert(keeps[j - 1].time >= cutoff);
                if 0 < i {
                    assert(r[i] == keeps[i - 1] && r[j] == keeps[j - 1]);
                }
            }
        }
    }
}

/// Re-running the rewrite with any other cutoff still leaves exactly one
/// baseline and the same newest tree: the first rewrite's baseline is the
/// oldest commit, so a second pass either collapses below it again or
/// touches nothing.
pub proof fn lemma_recompact_stable(h: Seq<CommitView>, cutoff1: int, cutoff2: int)
    requires
        spec_sorted(h),
        spec_olds(h, cutoff1).len() > 0,
        forall|i: int|
            0 <= i < h.len() && (#[trigger] h[i]).message == spec_baseline_msg() ==> h[i].time
                < cutoff1,
    ensures
        spec_count_baseline(spec_compact_history(spec_compact_history(h, cutoff1), cutoff2))
            == 1,
        spec_compact_history(spec_compact_history(h, cutoff1), cutoff2).last().tree
            == h.last().tree,
{
    let base_pred = |c: CommitView| c.message == spec_baseline_msg();
    let old2 = |c: CommitView| spec_is_old(c, cutoff2);
    let r1 = spec_compact_history(h, cutoff1);
    let olds1 = spec_olds(h, cutoff1);
    let base = spec_baseline_of(olds1.last());
    assert(h.len() > 0) by {
        h.lemma_filter_len(|c: CommitView| spec_is_old(c, cutoff1));
    }
    lemma_compact_single_baseline(h, cutoff1);
    lemma_compact_sorted(h, cutoff1);
    lemma_compact_preserves_head_tree(h, cutoff1);
    assert(r1 == seq![base] + spec_keeps(h, cutoff1));
    assert(r1[0] == base && base_pred(base));
    // The single baseline of the rewritten history is its first commit.
    assert(r1.filter(base_pred).len() == 1);
    assert forall|i: int| 0 < i < r1.len() implies !base_pred(#[trigger] r1[i]) by {
        lemma_filter_concat(seq![base], spec_keeps(h, cutoff1), base_pred);
        assert(seq![base].filter(base_pred) =~= seq![base]) by {
            reveal(Seq::filter);
            assert(seq![base].drop_last() =~= Seq::<CommitView>::empty());
        }
        lemma_filter_empty_no_witness(spec_keeps(h, cutoff1), base_pred, i - 1);
        assert(r1[i] == spec_keeps(h, cutoff1)[i - 1]);
    }
    let olds2 = spec_olds(r1, cutoff2);
    if olds2.len() == 0 {
        assert(spec_compact_history(r1, cutoff2) == r1);
    } else {
        // Some commit predates the second cutoff; the sorted history puts
        // the baseline first, so the baseline predates it too.
        lemma_filter_in_original(r1, old2, 0);
        let j = choose|j: int| 0 <= j < r1.len() && r1[j] == olds2[0];
        r1.lemma_filter_pred(old2, 0);
        assert(r1[0].time <= r1[j].time);
        assert forall|i: int|
            0 <= i < r1.len() && (#[trigger] r1[i]).message == spec_baseline_msg() implies
            r1[i].time < cutoff2 by {
            if i > 0 {
                assert(!base_pred(r1[i]));
            }
        }
        lemma_compact_single_baseline(r1, cutoff2);
        lemma_compact_preserves_head_tree(r1, cutoff2);
    }
}

/// Split a history into old and kept commits, preserving order.
pub fn partition_by_age(commits: Vec<CommitInfo>, cutoff: i64) -> (r: (
    Vec<CommitInfo>,
    Vec<CommitInfo>,
))
    ensures
        spec_view_history(r.0@) == spec_olds(spec_view_history(commits@), cutoff as int),
        spec_view_history(r.1@) == spec_keeps(spec_view_history(commits@), cutoff as int),
{
    let mut olds: Vec<CommitInfo> = Vec::new();
    let mut keeps: Vec<CommitInfo> = Vec::new();
    let mut rest = commits;
    let total = rest.len();
    let ghost all = rest@;
    proof {
        assert(all.len() == total);
        reveal(Seq::filter);
        assert(spec_view_history(all).take(0) =~= Seq::<CommitView>::empty());
    }
    let mut i: usize = 0;
    while rest.len() > 0
        invariant
            all.len() <= usize::MAX,
            i == all.len() - rest@.len(),
            0 <= i <= all.len(),
            rest@ =~= all.skip(i as int),
            spec_view_history(olds@) == spec_view_history(all).take(i as int).filter(
                |c: CommitView| spec_is_old(c, cutoff as int),
            ),
            spec_view_history(keeps@) == spec_view_history(all).take(i as int).filter(
                |c: CommitView| !spec_is_old(c, cutoff as int),
            ),
        decreases rest@.len(),
    {
        let c = rest.remove(0);
        proof {
            reveal(Seq::filter);
            let hv = spec_view_history(all);
            assert(hv.take(i + 1).drop_last() =~= hv.take(i as int));
            assert(all.skip(i as int)[0] == all[i as int]);
            assert(hv.take(i + 1).last() == spec_view_commit(all[i as int]));
        }
        let ghost prev_olds = olds@;
        let ghost prev_keeps = keeps@;
        if c.time_seconds < cutoff {
            olds.push(c);
            proof {
                assert(spec_view_history(olds@) =~= spec_view_history(prev_olds).push(
                    spec_view_commit(all[i as int]),
                ));
            }
        } else {
            keeps.push(c);
            proof {
                assert(spec_view_history(keeps@) =~= spec_view_history(prev_keeps).push(
                    spec_view_commit(all[i as int]),
                ));
            }
        }
        i += 1;
        proof {
            assert(rest@ =~= all.skip(i as int));
        }
    }
    proof {
        assert(spec_view_history(all).take(all.len() as int) =~= spec_view_history(all));
    }
    (olds, keeps)
}

/// The cutoff for a compaction requested now: the clock, clamped into a
/// sane window, minus the retention in seconds.
pub fn cutoff_from(now: i64, days: u32) -> (r: i64)
    ensures
        r == spec_clamp_clock(now as int) - (days as int) * 86400,
{
    let clamped: i64 = if now < -1099511627776i64 {
        -1099511627776i64
    } else if now > 1099511627776i64 {
        1099511627776i64
    } else {
        now
    };
    clamped - (days as i64) * 86400
}

/// A clock value forced into the window the engine supports.
pub open spec fn spec_clamp_clock(now: int) -> int {
    if now < -1099511627776 {
        -1099511627776
    } else if now > 1099511627776 {
        1099511627776
    } else {
        now
    }
}

/// The epoch cutoff: commits strictly older than this are collapsed.
pub fn cutoff_epoch(days: u32) -> (r: i64) {
    let (now, _off) = fsio::sys_now_epoch_offset();
    cutoff_from(now, days)
}

/// The baseline commit's message, as a string.
pub fn baseline_message() -> (r: String)
    ensures
        r@ == spec_baseline_msg(),
{
    String::from_str("AUTOSNAP_COMPACT_BASELINE")
}

/// Run the post-compaction maintenance on the auxiliary store: reflog
/// expiry with `--expire=now --all`, then an aggressive prune with
/// `--prune=now`. A non-zero exit is surfaced.
pub fn run_post_gc(autosnap: &String) -> (r: Result<(), AutosnapError>)
    ensures
        r matches Err(e) ==> e matches AutosnapError::PostMaintenance { .. },
{
    let mut expire: Vec<String> = Vec::new();
    expire.push(String::from_str("reflog"));
    expire.push(String::from_str("expire"));
    expire.push(String::from_str("--expire=now"));
    expire.push(String::from_str("--all"));
    match gitio::run_git(autosnap, &expire) {
        Ok(true) => {},
        _ => {
            return Err(
                AutosnapError::PostMaintenance {
                    detail: String::from_str("reflog expire failed"),
                },
            );
        },
    }
    let mut prune: Vec<String> = Vec::new();
    prune.push(String::from_str("gc"));
    prune.push(String::from_str("--prune=now"));
    match gitio::run_git(autosnap, &prune) {
        Ok(true) => Ok(()),
        _ => Err(
            AutosnapError::PostMaintenance { detail: String::from_str("prune failed") },
        ),
    }
}

/// The compaction gate: with the auxiliary store absent there is nothing
/// to rewrite - the zero result, with no lock taken and nothing touched.
/// A present store hands control to the engine.
pub fn compact_gate(store_present: bool) -> (r: Option<CompactResult>)
    ensures
        store_present ==> r is None,
        !store_present ==> (r matches Some(c) && c.before_commits == 0 && c.after_commits == 0
            && !c.rewritten && !c.baseline_created),
{
    if store_present {
        None
    } else {
        Some(
            CompactResult {
                before_commits: 0,
                after_commits: 0,
                rewritten: false,
                baseline_created: false,
            },
        )
    }
}

/// Compact old snapshot history: collapse every commit older than `days`
/// days into one parentless baseline and replay the rest on top.
/// A rewrite always creates the baseline; without one the commit count is
/// untouched.
pub fn compact(repo_root: &String, days: u32) -> (r: Result<CompactResult, AutosnapError>)
    ensures
        r matches Err(e) ==> (e matches AutosnapError::Io { .. } || e
            matches AutosnapError::CommitCreation { .. } || e
            matches AutosnapError::ReferenceUpdate { .. } || e
            matches AutosnapError::PostMaintenance { .. }),
        r matches Ok(c) ==> c.rewritten == c.baseline_created,
        r matches Ok(c) ==> (!c.rewritten ==> c.after_commits == c.before_commits),
{
    let autosnap = repo::autosnap_dir(repo_root);
    if let Some(zero) = compact_gate(fsio::sys_path_exists(autosnap.as_str())) {
        return Ok(zero);
    }
    let lock = match ops_lock::acquire_ops_lock(repo_root) {
        Ok(g) => g,
        Err(e) => {
            return Err(e);
        },
    };
    let out = compact_locked(repo_root, &autosnap, days);
    lock.release();
    out
}

/// The compaction body, run while the ops lock is held.
fn compact_locked(repo_root: &String, autosnap: &String, days: u32) -> (r: Result<
    CompactResult,
    AutosnapError,
>)
    ensures
        r matches Err(e) ==> (e matches AutosnapError::Io { .. } || e
            matches AutosnapError::CommitCreation { .. } || e
            matches AutosnapError::ReferenceUpdate { .. } || e
            matches AutosnapError::PostMaintenance { .. }),
        r matches Ok(c) ==> c.rewritten == c.baseline_created,
        r matches Ok(c) ==> (!c.rewritten ==> c.after_commits == c.before_commits),
{
    let repo = match gitio::open_repo(autosnap) {
        Ok(r) => r,
        Err(_) => {
            let path = text::string_copy(autosnap);
            return Err(AutosnapError::Io { path });
        },
    };
    let records = match gitio::list_commits_oldest_first(&repo) {
        Ok(v) => v,
        Err(e) => {
            return Err(
                AutosnapError::Io { path: text::bytes_to_string_lossy(&e.message) },
            );
        },
    };
    let before_commits = records.len();
    if before_commits == 0 {
        if let Err(e) = run_post_gc(autosnap) {
            return Err(e);
        }
        return Ok(
            CompactResult {
                before_commits: 0,
                after_commits: 0,
                rewritten: false,
                baseline_created: false,
            },
        );
    }
    let commits = gitio::resolve_history(records);
    let cutoff = cutoff_epoch(days);
    let (olds, keeps) = partition_by_age(commits, cutoff);
    if olds.len() == 0 {
        if let Err(e) = run_post_gc(autosnap) {
            return Err(e);
        }
        return Ok(
            CompactResult {
                before_commits,
                after_commits: before_commits,
                rewritten: false,
                baseline_created: false,
            },
        );
    }
    // The youngest commit of the old range seeds the baseline: same tree,
    // identities and timestamps preserved exactly, parentless.
    let source = &olds[olds.len() - 1];
    let msg = baseline_message();
    let no_parent: Option<String> = None;
    let baseline = match gitio::commit_raw(
        &repo,
        &source.tree,
        &no_parent,
        &msg,
        &source.author,
        &source.committer,
    ) {
        Ok(oid) => oid,
        Err(e) => {
            return Err(
                AutosnapError::CommitCreation { detail: text::bytes_to_string_lossy(&e.message) },
            );
        },
    };
    // Replay the kept commits in chronological order, trees by reference.
    let mut parent = baseline;
    let mut i: usize = 0;
    while i < keeps.len()
        invariant
            0 <= i <= keeps@.len(),
        decreases keeps@.len() - i,
    {
        let k = &keeps[i];
        let parent_of = Some(parent);
        match gitio::commit_raw(&repo, &k.tree, &parent_of, &k.message, &k.author, &k.committer) {
            Ok(oid) => {
                parent = oid;
            },
            Err(e) => {
                return Err(
                    AutosnapError::CommitCreation {
                        detail: text::bytes_to_string_lossy(&e.message),
                    },
                );
            },
        }
        i += 1;
    }
    // Point the reference at the tip of the replay chain.
    if let Err(e) = update_head_target(&repo, &parent) {
        return Err(e);
    }
    if let Err(e) = run_post_gc(autosnap) {
        return Err(e);
    }
    let after_commits = match gitio::list_commits_oldest_first(&repo) {
        Ok(v) => v.len(),
        Err(e) => {
            return Err(
                AutosnapError::Io { path: text::bytes_to_string_lossy(&e.message) },
            );
        },
    };
    Ok(
        CompactResult { before_commits, after_commits, rewritten: true, baseline_created: true },
    )
}

/// Move the reference to the rewritten tip: through its symbolic target
/// when the reference is symbolic, directly otherwise.
pub fn update_head_target(repo: &git2::Repository, target: &String) -> (r: Result<
    (),
    AutosnapError,
>)
    ensures
        r matches Err(e) ==> e matches AutosnapError::ReferenceUpdate { .. },
{
    match gitio::head_symbolic_target(repo) {
        Ok(Some(name)) => {
            match gitio::ref_set_target(repo, &name, target) {
                Ok(_) => Ok(()),
                Err(e) => Err(
                    AutosnapError::ReferenceUpdate {
                        detail: text::bytes_to_string_lossy(&e.message),
                    },
                ),
            }
        },
        Ok(None) => {
            match gitio::head_set_target(repo, target) {
                Ok(_) => Ok(()),
                Err(e) => Err(
                    AutosnapError::ReferenceUpdate {
                        detail: text::bytes_to_string_lossy(&e.message),
                    },
                ),
            }
        },
        Err(_) => Err(
            AutosnapError::ReferenceUpdate {
                detail: String::from_str("reference not found"),
            },
        ),
    }
}

/// Garbage-collect the auxiliary store: pack objects, and when pruning,
/// expire the reflog and drop objects older than the retention window.
pub fn gc(repo_root: &String, prune: bool, prune_days: u32) -> (r: Result<(), AutosnapError>)
    ensures
        r matches Err(e) ==> e matches AutosnapError::PostMaintenance { .. },
{
    let autosnap = repo::autosnap_dir(repo_root);
    if !fsio::sys_path_exists(autosnap.as_str()) {
        return Ok(());
    }
    if prune {
        let mut window = text::concat_str("--expire=", crate::errors::u64_to_string(
            prune_days as u64,
        ).as_str());
        window.append("d");
        let mut expire: Vec<String> = Vec::new();
        expire.push(String::from_str("reflog"));
        expire.push(String::from_str("expire"));
        expire.push(window);
        expire.push(String::from_str("--all"));
        match gitio::run_git(&autosnap, &expire) {
            Ok(true) => {},
            _ => {
                return Err(
                    AutosnapError::PostMaintenance {
                        detail: String::from_str("reflog expire failed"),
                    },
                );
            },
        }
        let mut prune_window = text::concat_str("--prune=", crate::errors::u64_to_string(
            prune_days as u64,
        ).as_str());
        prune_window.append("d");
        let mut pack: Vec<String> = Vec::new();
        pack.push(String::from_str("gc"));
        pack.push(prune_window);
        match gitio::run_git(&autosnap, &pack) {
            Ok(true) => Ok(()),
            _ => Err(
                AutosnapError::PostMaintenance { detail: String::from_str("prune failed") },
            ),
        }
    } else {
        let mut pack: Vec<String> = Vec::new();
        pack.push(String::from_str("gc"));
        match gitio::run_git(&autosnap, &pack) {
            Ok(true) => Ok(()),
            _ => Err(
                AutosnapError::PostMaintenance { detail: String::from_str("pack failed") },
            ),
        }
    }
}

} // verus!
