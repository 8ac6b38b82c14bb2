//! Byte-level text utilities: trimming, line splitting, searching, parsing.
//!
//! File contents and error messages are handled as bytes; each executable
//! function is specified against a recursive model of the same operation.

use vstd::prelude::*;

verus! {

/// The newline byte.
pub open spec fn nl() -> u8 {
    10
}

/// ASCII whitespace, as `str::trim` sees it for the files handled here.
pub open spec fn spec_is_space(b: u8) -> bool {
    b == 32 || b == 9 || b == 13 || b == 10
}

/// Whether `b` is ASCII whitespace.
pub fn is_space(b: u8) -> (r: bool)
    ensures
        r == spec_is_space(b),
{
    b == 32 || b == 9 || b == 13 || b == 10
}

/// `s` with leading whitespace removed.
pub open spec fn spec_trim_start(s: Seq<u8>) -> Seq<u8>
    decreases s.len(),
{
    if s.len() > 0 && spec_is_space(s[0]) {
        spec_trim_start(s.skip(1))
    } else {
        s
    }
}

/// `s` with trailing whitespace removed.
pub open spec fn spec_trim_end(s: Seq<u8>) -> Seq<u8>
    decreases s.len(),
{
    if s.len() > 0 && spec_is_space(s.last()) {
        spec_trim_end(s.drop_last())
    } else {
        s
    }
}

/// `s` with whitespace removed at both ends.
pub open spec fn spec_trim(s: Seq<u8>) -> Seq<u8> {
    spec_trim_end(spec_trim_start(s))
}

proof fn lemma_trim_start_skip(s: Seq<u8>, i: int)
    requires
        0 <= i <= s.len(),
        forall|k: int| 0 <= k < i ==> spec_is_space(s[k]),
    ensures
        spec_trim_start(s) == spec_trim_start(s.skip(i)),
    decreases i,
{
    if i > 0 {
        assert(spec_is_space(s[0]));
        assert(s.skip(1).skip(i - 1) =~= s.skip(i));
        lemma_trim_start_skip(s.skip(1), i - 1);
    } else {
        assert(s.skip(0) =~= s);
    }
}

proof fn lemma_trim_end_take(s: Seq<u8>, j: int)
    requires
        0 <= j <= s.len(),
        forall|k: int| j <= k < s.len() ==> spec_is_space(s[k]),
    ensures
        spec_trim_end(s) == spec_trim_end(s.take(j)),
    decreases s.len() - j,
{
    if j < s.len() {
        assert(spec_is_space(s.last()));
        assert(s.drop_last() =~= s.take(s.len() - 1));
        assert(s.take(s.len() - 1).take(j) =~= s.take(j));
        lemma_trim_end_take(s.take(s.len() - 1), j);
    } else {
        assert(s.take(s.len() as int) =~= s);
    }
}

/// Trim ASCII whitespace from both ends of `v`.
pub fn trim_bytes(v: &Vec<u8>) -> (r: Vec<u8>)
    ensures
        r@ == spec_trim(v@),
{
    let n = v.len();
    let mut i: usize = 0;
    while i < n && is_space(v[i])
        invariant
            0 <= i <= n,
            n == v@.len(),
            forall|k: int| 0 <= k < i ==> spec_is_space(v@[k]),
        decreases n - i,
    {
        i += 1;
    }
    let mut j: usize = n;
    while j > i && is_space(v[j - 1])
        invariant
            i <= j <= n,
            n == v@.len(),
            forall|k: int| j <= k < n ==> spec_is_space(v@[k]),
        decreases j,
    {
        j -= 1;
    }
    let mut out: Vec<u8> = Vec::new();
    let mut k: usize = i;
    while k < j
        invariant
            i <= k <= j <= n,
            n == v@.len(),
            out@ =~= v@.subrange(i as int, k as int),
        decreases j - k,
    {
        out.push(v[k]);
        k += 1;
    }
    proof {
        lemma_trim_start_skip(v@, i as int);
        if i == n {
            assert(v@.skip(i as int) =~= Seq::<u8>::empty());
            assert(out@ =~= Seq::<u8>::empty());
        } else {
            // v[i] is not a space, so trim_start stops exactly at i.
            assert(!spec_is_space(v@[i as int]));
            assert(spec_trim_start(v@) == v@.skip(i as int));
            lemma_trim_end_take(v@.skip(i as int), j - i);
            if j > i {
                assert(!spec_is_space(v@[j - 1]));
                assert(v@.skip(i as int).take(j - i).last() == v@[j - 1]);
                assert(spec_trim_end(v@.skip(i as int).take(j - i)) == v@.skip(i as int).take(
                    j - i,
                ));
            }
            assert(out@ =~= v@.skip(i as int).take(j - i));
        }
    }
    out
}

/// Lines already complete after reading `s`, given a pending partial line `cur`.
/// A final unterminated segment is kept; a trailing newline adds no empty line.
pub open spec fn spec_lines_acc(s: Seq<u8>, cur: Seq<u8>) -> Seq<Seq<u8>>
    decreases s.len(),
{
    if s.len() == 0 {
        if cur.len() == 0 {
            Seq::empty()
        } else {
            seq![cur]
        }
    } else if s[0] == nl() {
        seq![cur] + spec_lines_acc(s.skip(1), Seq::empty())
    } else {
        spec_lines_acc(s.skip(1), cur.push(s[0]))
    }
}

/// The lines of `s`, split on newline bytes.
pub open spec fn spec_lines(s: Seq<u8>) -> Seq<Seq<u8>> {
    spec_lines_acc(s, Seq::empty())
}

/// Lines fully emitted while reading `s` (the pending line excluded).
pub open spec fn spec_acc_out(s: Seq<u8>, cur: Seq<u8>) -> Seq<Seq<u8>>
    decreases s.len(),
{
    if s.len() == 0 {
        Seq::empty()
    } else if s[0] == nl() {
        seq![cur] + spec_acc_out(s.skip(1), Seq::empty())
    } else {
        spec_acc_out(s.skip(1), cur.push(s[0]))
    }
}

/// The pending partial line after reading `s`.
pub open spec fn spec_acc_cur(s: Seq<u8>, cur: Seq<u8>) -> Seq<u8>
    decreases s.len(),
{
    if s.len() == 0 {
        cur
    } else if s[0] == nl() {
        spec_acc_cur(s.skip(1), Seq::empty())
    } else {
        spec_acc_cur(s.skip(1), cur.push(s[0]))
    }
}

/// Reading `s ++ t` emits the lines of `s`, then continues into `t`
/// with whatever partial line `s` left pending.
pub proof fn lemma_lines_acc_split(s: Seq<u8>, t: Seq<u8>, cur: Seq<u8>)
    ensures
        spec_lines_acc(s + t, cur) == spec_acc_out(s, cur) + spec_lines_acc(
            t,
            spec_acc_cur(s, cur),
        ),
    decreases s.len(),
{
    if s.len() == 0 {
        assert(s + t =~= t);
    } else {
        assert((s + t).skip(1) =~= s.skip(1) + t);
        if s[0] == nl() {
            lemma_lines_acc_split(s.skip(1), t, Seq::empty());
        } else {
            lemma_lines_acc_split(s.skip(1), t, cur.push(s[0]));
        }
    }
}

/// The total split is the emitted lines plus the pending line, if any.
pub proof fn lemma_lines_acc_out(s: Seq<u8>, cur: Seq<u8>)
    ensures
        spec_lines_acc(s, cur) == spec_acc_out(s, cur) + (if spec_acc_cur(s, cur).len() == 0 {
            Seq::<Seq<u8>>::empty()
        } else {
            seq![spec_acc_cur(s, cur)]
        }),
    decreases s.len(),
{
    if s.len() == 0 {
        if cur.len() == 0 {
            assert(spec_lines_acc(s, cur) =~= spec_acc_out(s, cur) + Seq::<Seq<u8>>::empty());
        } else {
            assert(spec_lines_acc(s, cur) =~= spec_acc_out(s, cur) + seq![cur]);
        }
    } else if s[0] == nl() {
        lemma_lines_acc_out(s.skip(1), Seq::empty());
        assert(spec_lines_acc(s, cur) =~= spec_acc_out(s, cur) + (if spec_acc_cur(
            s,
            cur,
        ).len() == 0 {
            Seq::<Seq<u8>>::empty()
        } else {
            seq![spec_acc_cur(s, cur)]
        }));
    } else {
        lemma_lines_acc_out(s.skip(1), cur.push(s[0]));
        assert(spec_lines_acc(s, cur) =~= spec_acc_out(s, cur) + (if spec_acc_cur(
            s,
            cur,
        ).len() == 0 {
            Seq::<Seq<u8>>::empty()
        } else {
            seq![spec_acc_cur(s, cur)]
        }));
    }
}

/// Split `v` into lines on newline bytes.
pub fn lines_of(v: &Vec<u8>) -> (r: Vec<Vec<u8>>)
    ensures
        r@.map_values(|l: Vec<u8>| l@) == spec_lines(v@),
{
    let n = v.len();
    let mut out: Vec<Vec<u8>> = Vec::new();
    let mut cur: Vec<u8> = Vec::new();
    let mut i: usize = 0;
    proof {
        assert(v@.skip(0) =~= v@);
        assert(out@.map_values(|l: Vec<u8>| l@) + spec_lines_acc(v@, cur@) =~= spec_lines_acc(
            v@,
            cur@,
        ));
    }
    while i < n
        invariant
            0 <= i <= n,
            n == v@.len(),
            spec_lines(v@) == out@.map_values(|l: Vec<u8>| l@) + spec_lines_acc(
                v@.skip(i as int),
                cur@,
            ),
        decreases n - i,
    {
        let b = v[i];
        proof {
            assert(v@.skip(i as int)[0] == v@[i as int]);
            assert(v@.skip(i as int).skip(1) =~= v@.skip(i as int + 1));
        }
        if b == 10 {
            let done = cur;
            cur = Vec::new();
            let ghost prev_out = out@;
            out.push(done);
            proof {
                assert(out@.map_values(|l: Vec<u8>| l@) =~= prev_out.map_values(|l: Vec<u8>| l@)
                    + seq![done@]);
                assert(spec_lines_acc(v@.skip(i as int), done@) == seq![done@] + spec_lines_acc(
                    v@.skip(i as int + 1),
                    Seq::empty(),
                ));
                assert(out@.map_values(|l: Vec<u8>| l@) + spec_lines_acc(
                    v@.skip(i as int + 1),
                    cur@,
                ) =~= prev_out.map_values(|l: Vec<u8>| l@) + (seq![done@] + spec_lines_acc(
                    v@.skip(i as int + 1),
                    Seq::empty(),
                )));
            }
        } else {
            cur.push(b);
        }
        i += 1;
    }
    proof {
        assert(v@.skip(n as int) =~= Seq::<u8>::empty());
    }
    if cur.len() > 0 {
        let ghost prev_out = out@;
        out.push(cur);
        proof {
            assert(out@.map_values(|l: Vec<u8>| l@) =~= prev_out.map_values(|l: Vec<u8>| l@)
                + seq![out@.last()@]);
            assert(out@.map_values(|l: Vec<u8>| l@) =~= spec_lines(v@));
        }
    } else {
        proof {
            assert(out@.map_values(|l: Vec<u8>| l@) + Seq::<Seq<u8>>::empty() =~= out@.map_values(
                |l: Vec<u8>| l@,
            ));
        }
    }
    out
}

/// Whether two byte vectors hold the same bytes.
pub fn bytes_eq(a: &Vec<u8>, b: &Vec<u8>) -> (r: bool)
    ensures
        r == (a@ == b@),
{
    if a.len() != b.len() {
        proof {
            assert(a@ != b@);
        }
        return false;
    }
    let n = a.len();
    let mut i: usize = 0;
    while i < n
        invariant
            0 <= i <= n,
            n == a@.len(),
            n == b@.len(),
            forall|k: int| 0 <= k < i ==> a@[k] == b@[k],
        decreases n - i,
    {
        if a[i] != b[i] {
            proof {
                assert(a@ != b@);
            }
            return false;
        }
        i += 1;
    }
    proof {
        assert(a@ =~= b@);
    }
    true
}

/// A byte, ASCII-lowercased.
pub open spec fn spec_lower_byte(b: u8) -> u8 {
    if 65 <= b <= 90 {
        (b + 32) as u8
    } else {
        b
    }
}

/// `s` ASCII-lowercased, byte for byte.
pub open spec fn spec_lower(s: Seq<u8>) -> Seq<u8> {
    s.map_values(|b: u8| spec_lower_byte(b))
}

/// ASCII-lowercase every byte of `v`.
pub fn lower_bytes(v: &Vec<u8>) -> (r: Vec<u8>)
    ensures
        r@ == spec_lower(v@),
{
    let n = v.len();
    let mut out: Vec<u8> = Vec::new();
    let mut i: usize = 0;
    while i < n
        invariant
            0 <= i <= n,
            n == v@.len(),
            out@ =~= v@.take(i as int).map_values(|b: u8| spec_lower_byte(b)),
        decreases n - i,
    {
        let b = v[i];
        if 65 <= b && b <= 90 {
            out.push(b + 32);
        } else {
            out.push(b);
        }
        proof {
            assert(v@.take(i + 1).map_values(|b: u8| spec_lower_byte(b)) =~= v@.take(
                i as int,
            ).map_values(|b: u8| spec_lower_byte(b)).push(spec_lower_byte(v@[i as int])));
        }
        i += 1;
    }
    proof {
        assert(v@.take(n as int) =~= v@);
    }
    out
}

/// Whether `needle` occurs as a contiguous run inside `hay`.
pub open spec fn spec_contains_sub(hay: Seq<u8>, needle: Seq<u8>) -> bool {
    exists|i: int|
        0 <= i <= hay.len() - needle.len() && #[trigger] hay.subrange(i, i + needle.len() as int)
            == needle
}

/// Search for `needle` inside `hay`.
pub fn contains_sub(hay: &Vec<u8>, needle: &Vec<u8>) -> (r: bool)
    ensures
        r == spec_contains_sub(hay@, needle@),
{
    let hn = hay.len();
    let nn = needle.len();
    if nn > hn {
        proof {
            assert(!spec_contains_sub(hay@, needle@));
        }
        return false;
    }
    let mut i: usize = 0;
    while i <= hn - nn
        invariant
            0 <= i <= hn - nn + 1,
            nn <= hn,
            hn == hay@.len(),
            nn == needle@.len(),
            forall|k: int|
                0 <= k < i ==> #[trigger] hay@.subrange(k, k + needle@.len() as int) != needle@,
        decreases hn - nn + 1 - i,
    {
        let mut j: usize = 0;
        let mut all: bool = true;
        while j < nn
            invariant
                0 <= j <= nn,
                0 <= i <= hn - nn,
                hn == hay@.len(),
                nn == needle@.len(),
                all == (forall|k: int| 0 <= k < j ==> hay@[i + k] == needle@[k]),
                !all ==> j == nn,
            decreases nn - j,
        {
            if hay[i + j] != needle[j] {
                all = false;
                proof {
                    assert(hay@[i + j as int] != needle@[j as int]);
                }
                j = nn;
            } else {
                proof {
                    assert(forall|k: int| 0 <= k < j + 1 ==> hay@[i + k] == needle@[k]);
                }
                j += 1;
            }
        }
        if all {
            proof {
                assert(hay@.subrange(i as int, i + needle@.len() as int) =~= needle@);
            }
            return true;
        }
        proof {
            if hay@.subrange(i as int, i + needle@.len() as int) == needle@ {
                assert(forall|k: int|
                    0 <= k < needle@.len() ==> #[trigger] hay@.subrange(
                        i as int,
                        i + needle@.len() as int,
                    )[k] == hay@[i + k]);
                assert(false);
            }
        }
        i += 1;
    }
    proof {
        assert(!spec_contains_sub(hay@, needle@));
    }
    false
}

/// The numeric value of a run of decimal digit bytes, most significant first.
pub open spec fn spec_digits_value(s: Seq<u8>) -> nat
    decreases s.len(),
{
    if s.len() == 0 {
        0
    } else {
        spec_digits_value(s.drop_last()) * 10 + (s.last() - 48) as nat
    }
}

/// Whether every byte of `s` is a decimal digit.
pub open spec fn spec_all_digits(s: Seq<u8>) -> bool {
    forall|k: int| 0 <= k < s.len() ==> 48 <= #[trigger] s[k] <= 57
}

/// Parse `v` as an unsigned decimal number, bounded by `limit`.
/// Returns `None` when `v` is empty, holds a non-digit, or exceeds `limit`.
pub fn parse_u64_digits(v: &Vec<u8>, limit: u64) -> (r: Option<u64>)
    ensures
        match r {
            Some(x) => spec_all_digits(v@) && v@.len() > 0 && x == spec_digits_value(v@) && x
                <= limit,
            None => v@.len() == 0 || !spec_all_digits(v@) || spec_digits_value(v@) > limit,
        },
{
    if v.len() == 0 {
        return None;
    }
    let n = v.len();
    let mut acc: u64 = 0;
    let mut i: usize = 0;
    while i < n
        invariant
            0 <= i <= n,
            n == v@.len(),
            spec_all_digits(v@.take(i as int)),
            acc == spec_digits_value(v@.take(i as int)),
            acc <= limit,
            limit <= u64::MAX,
        decreases n - i,
    {
        let b = v[i];
        if b < 48 || b > 57 {
            proof {
                assert(!spec_all_digits(v@));
            }
            return None;
        }
        let d: u64 = (b - 48) as u64;
        if acc > limit / 10 || (acc == limit / 10 && d > limit % 10) {
            proof {
                assert(v@.take(i + 1).drop_last() =~= v@.take(i as int));
                assert(spec_digits_value(v@.take(i + 1)) > limit);
                if spec_all_digits(v@) {
                    lemma_digits_value_monotone(v@, i + 1);
                }
            }
            return None;
        }
        acc = acc * 10 + d;
        proof {
            assert(v@.take(i + 1).drop_last() =~= v@.take(i as int));
            assert(spec_all_digits(v@.take(i + 1)));
        }
        i += 1;
    }
    proof {
        assert(v@.take(n as int) =~= v@);
    }
    Some(acc)
}

/// A longer digit run never has a smaller value: extending digits cannot shrink it.
proof fn lemma_digits_value_monotone(s: Seq<u8>, i: int)
    requires
        0 <= i <= s.len(),
        spec_all_digits(s),
    ensures
        spec_digits_value(s) >= spec_digits_value(s.take(i)),
    decreases s.len() - i,
{
    if i < s.len() {
        lemma_digits_value_monotone(s, i + 1);
        assert(s.take(i + 1).drop_last() =~= s.take(i));
        assert(spec_digits_value(s.take(i + 1)) >= spec_digits_value(s.take(i)));
    } else {
        assert(s.take(i) =~= s);
    }
}

/// Render `n` as decimal digit bytes, most significant first.
pub fn u64_to_dec_bytes(n: u64) -> (r: Vec<u8>)
    ensures
        spec_all_digits(r@),
        r@.len() > 0,
        spec_digits_value(r@) == n,
    decreases n,
{
    if n < 10 {
        let mut v: Vec<u8> = Vec::new();
        v.push(48 + (n as u8));
        proof {
            assert(v@.drop_last() =~= Seq::<u8>::empty());
            assert(v@.last() == 48 + n);
            assert(spec_digits_value(v@) == spec_digits_value(Seq::<u8>::empty()) * 10 + (
            v@.last() - 48));
            assert(spec_digits_value(v@) == n);
        }
        v
    } else {
        let mut v = u64_to_dec_bytes(n / 10);
        let ghost prefix = v@;
        v.push(48 + ((n % 10) as u8));
        proof {
            assert(v@.drop_last() =~= prefix);
            assert(v@.last() == 48 + (n % 10));
            assert(spec_digits_value(v@) == spec_digits_value(prefix) * 10 + (v@.last() - 48));
            assert(spec_digits_value(v@) == (n / 10) * 10 + (n % 10));
            assert((n / 10) * 10 + (n % 10) == n);
        }
        v
    }
}

/// Relies on String::from_utf8_lossy: ASCII bytes come through one
/// character per byte; anything else is replaced, never dropped silently
/// into a panic.
#[verifier::external_body]
pub fn bytes_to_string_lossy(v: &Vec<u8>) -> (r: String)
    ensures
        (forall|k: int| 0 <= k < v@.len() ==> v@[k] < 128) ==> r@ == v@.map_values(
            |b: u8| b as char,
        ),
{
    String::from_utf8_lossy(v).into_owned()
}

/// Whether two string slices hold the same characters.
pub fn str_eq_str(a: &str, b: &str) -> (r: bool)
    ensures
        r == (a@ == b@),
{
    let n = a.unicode_len();
    let m = b.unicode_len();
    if n != m {
        proof {
            assert(a@ != b@);
        }
        return false;
    }
    let mut i: usize = 0;
    while i < n
        invariant
            0 <= i <= n,
            n == a@.len(),
            n == b@.len(),
            forall|k: int| 0 <= k < i ==> a@[k] == b@[k],
        decreases n - i,
    {
        if a.get_char(i) != b.get_char(i) {
            proof {
                assert(a@ != b@);
            }
            return false;
        }
        i += 1;
    }
    proof {
        assert(a@ =~= b@);
    }
    true
}

/// Whether `p` is a prefix of `s`, character for character.
pub fn str_has_prefix(s: &str, p: &str) -> (r: bool)
    ensures
        r == (s@.len() >= p@.len() && s@.take(p@.len() as int) == p@),
{
    let n = s.unicode_len();
    let m = p.unicode_len();
    if n < m {
        return false;
    }
    let mut i: usize = 0;
    while i < m
        invariant
            0 <= i <= m,
            m <= n,
            n == s@.len(),
            m == p@.len(),
            forall|k: int| 0 <= k < i ==> s@[k] == p@[k],
        decreases m - i,
    {
        if s.get_char(i) != p.get_char(i) {
            proof {
                assert(s@.take(p@.len() as int)[i as int] != p@[i as int]);
            }
            return false;
        }
        i += 1;
    }
    proof {
        assert(s@.take(p@.len() as int) =~= p@);
    }
    true
}

/// The concatenation of two string slices.
pub fn concat_str(a: &str, b: &str) -> (r: String)
    ensures
        r@ == a@ + b@,
{
    let mut s = String::new();
    s.append(a);
    s.append(b);
    proof {
        assert(s@ =~= a@ + b@);
    }
    s
}

/// A copy of a string with the same characters.
pub fn string_copy(s: &String) -> (r: String)
    ensures
        r@ == s@,
{
    let mut out = String::new();
    out.append(s.as_str());
    proof {
        assert(out@ =~= s@);
    }
    out
}

} // verus!
