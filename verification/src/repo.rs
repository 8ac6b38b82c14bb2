//! Repository layout: where the auxiliary store lives, and the idempotent
//! edit that keeps `.autosnap` in the primary per-repository exclude file.

use vstd::prelude::*;
use crate::errors::AutosnapError;
use crate::fsio;
use crate::gitio;
use crate::text;
use crate::text::{
    spec_lines, spec_lines_acc, spec_acc_out, spec_acc_cur, spec_trim, nl,
    lemma_lines_acc_split, lemma_lines_acc_out,
};

verus! {

/// The `.autosnap` directory under the given repository root.
pub fn autosnap_dir(repo_root: &String) -> (r: String)
    ensures
        r@ == repo_root@ + "/.autosnap"@,
{
    let mut s = String::new();
    s.append(repo_root.as_str());
    s.append("/.autosnap");
    proof {
        assert(s@ =~= repo_root@ + "/.autosnap"@);
    }
    s
}

/// The bytes of the exclude pattern `.autosnap`.
pub open spec fn spec_autosnap_bytes() -> Seq<u8> {
    seq![46u8, 97u8, 117u8, 116u8, 111u8, 115u8, 110u8, 97u8, 112u8]
}

/// The bytes of the anchored variant `/.autosnap`.
pub open spec fn spec_slash_autosnap_bytes() -> Seq<u8> {
    seq![47u8] + spec_autosnap_bytes()
}

/// The pattern `.autosnap`, as bytes.
pub fn autosnap_bytes() -> (r: Vec<u8>)
    ensures
        r@ == spec_autosnap_bytes(),
{
    let mut v: Vec<u8> = Vec::new();
    v.push(46);
    v.push(97);
    v.push(117);
    v.push(116);
    v.push(111);
    v.push(115);
    v.push(110);
    v.push(97);
    v.push(112);
    proof {
        assert(v@ =~= spec_autosnap_bytes());
    }
    v
}

/// Whether an exclude-file line already covers `.autosnap`:
/// its trimmed text is `.autosnap` or `/.autosnap`.
pub open spec fn spec_is_excl_line(l: Seq<u8>) -> bool {
    spec_trim(l) == spec_autosnap_bytes() || spec_trim(l) == spec_slash_autosnap_bytes()
}

/// How many lines cover `.autosnap`.
pub open spec fn spec_count_excl(lines: Seq<Seq<u8>>) -> int
    decreases lines.len(),
{
    if lines.len() == 0 {
        0
    } else {
        spec_count_excl(lines.drop_last()) + (if spec_is_excl_line(lines.last()) {
            1int
        } else {
            0int
        })
    }
}

/// Counting distributes over concatenation.
pub proof fn lemma_count_excl_concat(a: Seq<Seq<u8>>, b: Seq<Seq<u8>>)
    ensures
        spec_count_excl(a + b) == spec_count_excl(a) + spec_count_excl(b),
    decreases b.len(),
{
    if b.len() == 0 {
        assert(a + b =~= a);
    } else {
        lemma_count_excl_concat(a, b.drop_last());
        assert((a + b).drop_last() =~= a + b.drop_last());
        assert((a + b).last() == b.last());
    }
}

/// A count of lines is never negative.
pub proof fn lemma_count_excl_nonneg(lines: Seq<Seq<u8>>)
    ensures
        spec_count_excl(lines) >= 0,
    decreases lines.len(),
{
    if lines.len() > 0 {
        lemma_count_excl_nonneg(lines.drop_last());
    }
}

/// Whether this line covers `.autosnap`.
pub fn is_excl_line(l: &Vec<u8>) -> (r: bool)
    ensures
        r == spec_is_excl_line(l@),
{
    let t = text::trim_bytes(l);
    let auto = autosnap_bytes();
    if text::bytes_eq(&t, &auto) {
        return true;
    }
    let mut slash: Vec<u8> = Vec::new();
    slash.push(47);
    let mut k: usize = 0;
    while k < auto.len()
        invariant
            0 <= k <= auto@.len(),
            auto@ == spec_autosnap_bytes(),
            slash@ =~= seq![47u8] + auto@.take(k as int),
        decreases auto@.len() - k,
    {
        slash.push(auto[k]);
        k += 1;
    }
    proof {
        assert(slash@ =~= spec_slash_autosnap_bytes());
    }
    text::bytes_eq(&t, &slash)
}

/// Count the lines of `lines` that cover `.autosnap`.
pub fn count_excl_lines(lines: &Vec<Vec<u8>>) -> (n: usize)
    ensures
        n == spec_count_excl(lines@.map_values(|l: Vec<u8>| l@)),
        n <= lines@.len(),
{
    let mut n: usize = 0;
    let mut i: usize = 0;
    while i < lines.len()
        invariant
            0 <= i <= lines@.len(),
            n <= i,
            n == spec_count_excl(lines@.map_values(|l: Vec<u8>| l@).take(i as int)),
        decreases lines@.len() - i,
    {
        let hit = is_excl_line(&lines[i]);
        proof {
            let m = lines@.map_values(|l: Vec<u8>| l@);
            assert(m.take(i + 1).drop_last() =~= m.take(i as int));
            assert(m.take(i + 1).last() == m[i as int]);
        }
        if hit {
            n += 1;
        }
        i += 1;
    }
    proof {
        let m = lines@.map_values(|l: Vec<u8>| l@);
        assert(m.take(lines@.len() as int) =~= m);
    }
    n
}

/// The bytes appended when the pattern is missing: a separating newline if
/// the content is nonempty and unterminated, then `.autosnap` and a newline.
pub open spec fn spec_glue(c: Seq<u8>) -> Seq<u8> {
    (if c.len() > 0 && c.last() != nl() {
        seq![nl()]
    } else {
        Seq::<u8>::empty()
    }) + spec_autosnap_bytes() + seq![nl()]
}

/// The exclude content after the idempotent edit.
pub open spec fn spec_ensure_exclude(c: Seq<u8>) -> Seq<u8> {
    if spec_count_excl(spec_lines(c)) > 0 {
        c
    } else {
        c + spec_glue(c)
    }
}

/// Make sure the content covers `.autosnap`; the flag reports whether the
/// content changed.
pub fn ensure_exclude(content: &Vec<u8>) -> (r: (Vec<u8>, bool))
    ensures
        r.0@ == spec_ensure_exclude(content@),
        r.1 == (spec_count_excl(spec_lines(content@)) == 0),
{
    let lines = text::lines_of(content);
    let n = count_excl_lines(&lines);
    if n > 0 {
        let mut out: Vec<u8> = Vec::new();
        let mut i: usize = 0;
        while i < content.len()
            invariant
                0 <= i <= content@.len(),
                out@ =~= content@.take(i as int),
            decreases content@.len() - i,
        {
            out.push(content[i]);
            i += 1;
        }
        proof {
            assert(out@ =~= content@);
        }
        (out, false)
    } else {
        let mut out: Vec<u8> = Vec::new();
        let mut i: usize = 0;
        while i < content.len()
            invariant
                0 <= i <= content@.len(),
                out@ =~= content@.take(i as int),
            decreases content@.len() - i,
        {
            out.push(content[i]);
            i += 1;
        }
        proof {
            assert(out@ =~= content@);
        }
        let unterminated = content.len() > 0 && content[content.len() - 1] != 10;
        if unterminated {
            out.push(10);
        }
        let mut pattern = autosnap_bytes();
        out.append(&mut pattern);
        out.push(10);
        proof {
            assert(out@ =~= content@ + spec_glue(content@));
        }
        (out, true)
    }
}

/// Reading `a ++ b` leaves the pending line that `b` leaves, started from
/// whatever `a` left pending.
proof fn lemma_acc_cur_append(a: Seq<u8>, b: Seq<u8>, cur: Seq<u8>)
    ensures
        spec_acc_cur(a + b, cur) == spec_acc_cur(b, spec_acc_cur(a, cur)),
    decreases a.len(),
{
    if a.len() == 0 {
        assert(a + b =~= b);
    } else {
        assert((a + b).skip(1) =~= a.skip(1) + b);
        if a[0] == nl() {
            lemma_acc_cur_append(a.skip(1), b, Seq::empty());
        } else {
            lemma_acc_cur_append(a.skip(1), b, cur.push(a[0]));
        }
    }
}

/// The pending partial line after `c` is empty exactly when `c` is empty or
/// newline-terminated; otherwise it ends in `c`'s last byte.
proof fn lemma_acc_cur_edges(c: Seq<u8>, cur: Seq<u8>)
    ensures
        c.len() == 0 ==> spec_acc_cur(c, cur) == cur,
        c.len() > 0 && c.last() == nl() ==> spec_acc_cur(c, cur).len() == 0,
        c.len() > 0 && c.last() != nl() ==> spec_acc_cur(c, cur).len() > 0,
{
    if c.len() > 0 {
        let a = c.drop_last();
        let b = seq![c.last()];
        assert(c =~= a + b);
        lemma_acc_cur_append(a, b, cur);
        let p = spec_acc_cur(a, cur);
        assert(b.skip(1) =~= Seq::<u8>::empty());
        if c.last() == nl() {
            assert(spec_acc_cur(b, p) == spec_acc_cur(Seq::<u8>::empty(), Seq::empty()));
        } else {
            assert(spec_acc_cur(b, p) == spec_acc_cur(Seq::<u8>::empty(), p.push(c.last())));
            assert(spec_acc_cur(b, p) == p.push(c.last()));
        }
    }
}

/// A newline-terminated line without inner newlines is one split line.
proof fn lemma_lines_single(l: Seq<u8>, cur: Seq<u8>)
    requires
        forall|k: int| 0 <= k < l.len() ==> l[k] != nl(),
    ensures
        spec_lines_acc(l + seq![nl()], cur) == seq![cur + l],
    decreases l.len(),
{
    if l.len() == 0 {
        assert(l + seq![nl()] =~= seq![nl()]);
        assert((l + seq![nl()])[0] == nl());
        assert((l + seq![nl()]).skip(1) =~= Seq::<u8>::empty());
        assert(spec_lines_acc(Seq::<u8>::empty(), Seq::<u8>::empty())
            =~= Seq::<Seq<u8>>::empty());
        assert(spec_lines_acc(l + seq![nl()], cur) =~= seq![cur] + Seq::<Seq<u8>>::empty());
        assert(seq![cur] + Seq::<Seq<u8>>::empty() =~= seq![cur]);
        assert(cur + l =~= cur);
        assert(spec_lines_acc(l + seq![nl()], cur) =~= seq![cur + l]);
    } else {
        assert((l + seq![nl()])[0] == l[0]);
        assert((l + seq![nl()]).skip(1) =~= l.skip(1) + seq![nl()]);
        lemma_lines_single(l.skip(1), cur.push(l[0]));
        assert(cur.push(l[0]) + l.skip(1) =~= cur + l);
    }
}

/// The pattern has no inner newline and trims to itself.
proof fn lemma_autosnap_bytes_facts()
    ensures
        forall|k: int|
            0 <= k < spec_autosnap_bytes().len() ==> #[trigger] spec_autosnap_bytes()[k] != nl(),
        spec_trim(spec_autosnap_bytes()) == spec_autosnap_bytes(),
        spec_is_excl_line(spec_autosnap_bytes()),
{
    let a = spec_autosnap_bytes();
    assert forall|k: int| 0 <= k < a.len() implies #[trigger] a[k] != nl() by {
        assert(a[0] == 46 && a[1] == 97 && a[2] == 117 && a[3] == 116 && a[4] == 111 && a[5]
            == 115 && a[6] == 110 && a[7] == 97 && a[8] == 112);
    }
    assert(!text::spec_is_space(a[0]));
    assert(text::spec_trim_start(a) == a);
    assert(!text::spec_is_space(a.last()));
    assert(text::spec_trim_end(a) == a);
}

/// Appending the glue adds exactly one covering line; every other line of
/// the content survives unchanged.
pub proof fn lemma_exclude_append_count(c: Seq<u8>)
    ensures
        spec_count_excl(spec_lines(c + spec_glue(c))) == spec_count_excl(spec_lines(c)) + 1,
{
    let auto = spec_autosnap_bytes();
    let glue = spec_glue(c);
    let pend = spec_acc_cur(c, Seq::empty());
    lemma_lines_acc_split(c, glue, Seq::empty());
    lemma_lines_acc_out(c, Seq::empty());
    lemma_acc_cur_edges(c, Seq::empty());
    lemma_autosnap_bytes_facts();
    if c.len() > 0 && c.last() != nl() {
        // glue = NL ++ auto ++ NL: closes the pending line, then the pattern.
        assert(glue =~= seq![nl()] + (auto + seq![nl()]));
        assert(glue[0] == nl());
        assert(glue.skip(1) =~= auto + seq![nl()]);
        lemma_lines_single(auto, Seq::empty());
        assert(Seq::<u8>::empty() + auto =~= auto);
        assert(spec_lines_acc(glue, pend) =~= seq![pend] + seq![auto]);
        assert(spec_lines(c + glue) == spec_acc_out(c, Seq::empty()) + (seq![pend] + seq![auto]));
        assert(spec_lines(c) == spec_acc_out(c, Seq::empty()) + seq![pend]);
        lemma_count_excl_concat(spec_acc_out(c, Seq::empty()), seq![pend] + seq![auto]);
        lemma_count_excl_concat(seq![pend], seq![auto]);
        lemma_count_excl_concat(spec_acc_out(c, Seq::empty()), seq![pend]);
        assert(spec_count_excl(seq![auto]) == 1) by {
            assert(seq![auto].drop_last() =~= Seq::<Seq<u8>>::empty());
            assert(spec_count_excl(Seq::<Seq<u8>>::empty()) == 0);
            assert(seq![auto].last() == auto);
            assert(spec_is_excl_line(auto));
        }
        assert(seq![pend] + seq![auto] =~= seq![pend, auto]);
        assert(spec_count_excl(spec_lines(c + glue)) == spec_count_excl(spec_lines(c)) + 1);
    } else {
        // Terminated or empty content: glue = auto ++ NL, pending line empty.
        assert(pend.len() == 0);
        assert(glue =~= auto + seq![nl()]);
        lemma_lines_single(auto, pend);
        assert(pend + auto =~= auto);
        assert(spec_lines_acc(glue, pend) =~= seq![auto]);
        assert(spec_lines(c + glue) == spec_acc_out(c, Seq::empty()) + seq![auto]);
        assert(spec_lines(c) =~= spec_acc_out(c, Seq::empty()));
        lemma_count_excl_concat(spec_acc_out(c, Seq::empty()), seq![auto]);
        assert(spec_count_excl(seq![auto]) == 1) by {
            assert(seq![auto].drop_last() =~= Seq::<Seq<u8>>::empty());
            assert(spec_count_excl(Seq::<Seq<u8>>::empty()) == 0);
            assert(seq![auto].last() == auto);
            assert(spec_is_excl_line(auto));
        }
        assert(spec_count_excl(spec_lines(c + glue)) == spec_count_excl(spec_lines(c)) + 1);
    }
}

/// However many times the edit runs, the exclude file ends up covering
/// `.autosnap` exactly once - existing covering lines are never duplicated,
/// a missing pattern is added once.
pub proof fn lemma_exclude_count(c: Seq<u8>)
    ensures
        spec_count_excl(spec_lines(spec_ensure_exclude(c))) == if spec_count_excl(spec_lines(c))
            == 0 {
            1int
        } else {
            spec_count_excl(spec_lines(c))
        },
{
    lemma_count_excl_nonneg(spec_lines(c));
    if spec_count_excl(spec_lines(c)) == 0 {
        lemma_exclude_append_count(c);
    }
}

/// The edit is idempotent: a second application changes nothing.
pub proof fn lemma_exclude_idempotent(c: Seq<u8>)
    ensures
        spec_ensure_exclude(spec_ensure_exclude(c)) == spec_ensure_exclude(c),
{
    lemma_count_excl_nonneg(spec_lines(c));
    lemma_exclude_count(c);
}

/// Discover the current repository root directory.
pub fn repo_root() -> (r: Result<String, AutosnapError>)
    ensures
        r matches Err(e) ==> e matches AutosnapError::NotAVcsRepository,
{
    match gitio::discover_workdir() {
        Ok(root) => Ok(root),
        Err(_) => Err(AutosnapError::NotAVcsRepository),
    }
}

/// Initialize the `.autosnap` bare store if absent, and keep the primary
/// per-repository exclude file covering `.autosnap`.
pub fn init_autosnap(repo_root: &String) -> (r: Result<(), AutosnapError>)
    ensures
        r matches Err(e) ==> (e matches AutosnapError::Io { .. }),
{
    let dir = autosnap_dir(repo_root);
    if !fsio::sys_path_exists(dir.as_str()) {
        if let Err(_) = gitio::init_bare(&dir) {
            return Err(AutosnapError::Io { path: dir });
        }
    }
    match add_to_git_exclude(repo_root) {
        Ok(_) => Ok(()),
        Err(e) => Err(e),
    }
}

/// What the exclude edit did.
#[derive(Debug, Clone, Copy, PartialEq, Eq, Structural)]
pub enum ExcludeOutcome {
    /// No primary metadata directory: outside a version-controlled tree
    /// the edit is skipped and nothing is created.
    SkippedOutsideRepository,
    /// The file already covers `.autosnap`; it was left untouched.
    AlreadyCovered,
    /// The covering line was appended (per `spec_ensure_exclude`).
    Updated,
}

/// The exclude-edit rule: outside a version-controlled tree the edit is
/// skipped; inside one, the file is updated exactly when the content read
/// lacked a covering line, and reported covered otherwise.
pub fn exclude_decision(primary_present: bool, edit_needed: bool) -> (r: ExcludeOutcome)
    ensures
        !primary_present ==> r == ExcludeOutcome::SkippedOutsideRepository,
        primary_present && edit_needed ==> r == ExcludeOutcome::Updated,
        primary_present && !edit_needed ==> r == ExcludeOutcome::AlreadyCovered,
{
    if !primary_present {
        ExcludeOutcome::SkippedOutsideRepository
    } else if edit_needed {
        ExcludeOutcome::Updated
    } else {
        ExcludeOutcome::AlreadyCovered
    }
}

/// Add `.autosnap` to the primary exclude file if not already present.
/// The outcome follows `exclude_decision` exactly: skipped when no `.git`
/// is present, updated when the content read lacked a covering line
/// (the new content is `spec_ensure_exclude` of it), covered otherwise.
pub fn add_to_git_exclude(repo_root: &String) -> (r: Result<ExcludeOutcome, AutosnapError>)
    ensures
        r matches Err(e) ==> (e matches AutosnapError::Io { .. }),
{
    let git_dir = text::concat_str(repo_root.as_str(), "/.git");
    if !fsio::sys_path_exists(git_dir.as_str()) {
        return Ok(exclude_decision(false, false));
    }
    let info_dir = text::concat_str(git_dir.as_str(), "/info");
    let _ = fsio::sys_mkdir(info_dir.as_str());
    let exclude_path = text::concat_str(info_dir.as_str(), "/exclude");
    let content = match fsio::read_file_if_exists(&exclude_path, 1048576) {
        Ok(Some(v)) => v,
        Ok(None) => Vec::new(),
        Err(_) => {
            return Err(AutosnapError::Io { path: exclude_path });
        },
    };
    let (updated, changed) = ensure_exclude(&content);
    if changed {
        if let Err(_) = fsio::write_file(&exclude_path, &updated) {
            return Err(AutosnapError::Io { path: exclude_path });
        }
    }
    Ok(exclude_decision(true, changed))
}

} // verus!
