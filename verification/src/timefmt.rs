//! Civil-calendar arithmetic and RFC 3339 rendering for snapshot messages.
//!
//! A timestamp is decomposed from epoch seconds by exact counting: the
//! conversion is specified through `spec_civil_days`, which rebuilds the day
//! number from the civil date, so the result is pinned by a round-trip
//! equation rather than by re-stating the algorithm.

use vstd::prelude::*;
use crate::errors::{spec_digit_char, digit_str};

verus! {

/// Gregorian leap-year rule.
pub open spec fn spec_is_leap(y: int) -> bool {
    y % 4 == 0 && (y % 100 != 0 || y % 400 == 0)
}

/// Days in year `y`.
pub open spec fn spec_days_in_year(y: int) -> int {
    if spec_is_leap(y) {
        366
    } else {
        365
    }
}

/// Days in month `m` of year `y` (months counted 1 to 12).
pub open spec fn spec_days_in_month(y: int, m: int) -> int {
    if m == 2 {
        if spec_is_leap(y) {
            29
        } else {
            28
        }
    } else if m == 4 || m == 6 || m == 9 || m == 11 {
        30
    } else {
        31
    }
}

/// Days between 1970-01-01 and the first day of year `y`.
pub open spec fn spec_days_before_year(y: int) -> int
    decreases y - 1970,
{
    if y <= 1970 {
        0
    } else {
        spec_days_before_year(y - 1) + spec_days_in_year(y - 1)
    }
}

/// Days between the first day of year `y` and the first day of its month `m`.
pub open spec fn spec_days_before_month(y: int, m: int) -> int
    decreases m,
{
    if m <= 1 {
        0
    } else {
        spec_days_before_month(y, m - 1) + spec_days_in_month(y, m - 1)
    }
}

/// The day number (days since 1970-01-01) of the civil date `y-m-d`.
pub open spec fn spec_civil_days(y: int, m: int, d: int) -> int {
    spec_days_before_year(y) + spec_days_before_month(y, m) + d - 1
}

/// Every year contributes at least 365 days.
proof fn lemma_days_before_year_lb(y: int)
    requires
        y >= 1970,
    ensures
        spec_days_before_year(y) >= 365 * (y - 1970),
    decreases y - 1970,
{
    if y > 1970 {
        lemma_days_before_year_lb(y - 1);
    }
}

/// The twelve months of `y` sum to the length of `y`.
proof fn lemma_months_cover_year(y: int)
    ensures
        spec_days_before_month(y, 13) == spec_days_in_year(y),
{
    reveal_with_fuel(spec_days_before_month, 13);
    if spec_is_leap(y) {
        assert(spec_days_before_month(y, 13) == 366);
    } else {
        assert(spec_days_before_month(y, 13) == 365);
    }
}

/// Whether `y` is a leap year.
pub fn is_leap(y: u64) -> (r: bool)
    ensures
        r == spec_is_leap(y as int),
{
    y % 4 == 0 && (y % 100 != 0 || y % 400 == 0)
}

/// Days in year `y`.
pub fn days_in_year(y: u64) -> (r: u64)
    ensures
        r == spec_days_in_year(y as int),
        365 <= r <= 366,
{
    if is_leap(y) {
        366
    } else {
        365
    }
}

/// Days in month `m` of year `y`.
pub fn days_in_month(y: u64, m: u64) -> (r: u64)
    requires
        1 <= m <= 12,
    ensures
        r == spec_days_in_month(y as int, m as int),
        28 <= r <= 31,
{
    if m == 2 {
        if is_leap(y) {
            29
        } else {
            28
        }
    } else if m == 4 || m == 6 || m == 9 || m == 11 {
        30
    } else {
        31
    }
}

/// Upper bound on day numbers this module renders: stays below year 9998.
pub open spec fn spec_max_days() -> int {
    2930950
}

/// Decompose a day number into its civil date.
/// The result is pinned by rebuilding the day number from the date.
pub fn civil_from_days(days: u64) -> (r: (u64, u64, u64))
    requires
        days < spec_max_days(),
    ensures
        1970 <= r.0 <= 9999,
        1 <= r.1 <= 12,
        1 <= r.2 <= spec_days_in_month(r.0 as int, r.1 as int),
        spec_civil_days(r.0 as int, r.1 as int, r.2 as int) == days,
{
    let mut y: u64 = 1970;
    let mut rem: u64 = days;
    while rem >= days_in_year(y)
        invariant
            y >= 1970,
            y - 1970 <= days - rem,
            rem <= days,
            days < spec_max_days(),
            spec_days_before_year(y as int) + rem == days,
        decreases rem,
    {
        let len = days_in_year(y);
        rem = rem - len;
        y = y + 1;
    }
    proof {
        lemma_days_before_year_lb(y as int);
        assert(365 * ((y as int) - 1970) <= days);
        assert(y <= 9999) by {
            if y as int - 1970 >= 8030 {
                assert(365 * ((y as int) - 1970) >= 365 * 8030) by (nonlinear_arith)
                    requires
                        y as int - 1970 >= 8030,
                ;
            }
        }
    }
    let mut m: u64 = 1;
    while m < 12 && rem >= days_in_month(y, m)
        invariant
            1 <= m <= 12,
            1970 <= y <= 9999,
            spec_days_before_year(y as int) + spec_days_before_month(y as int, m as int) + rem
                == days,
            rem < spec_days_in_year(y as int) - spec_days_before_month(y as int, m as int),
        decreases 12 - m,
    {
        let len = days_in_month(y, m);
        rem = rem - len;
        m = m + 1;
    }
    proof {
        if m == 12 {
            lemma_months_cover_year(y as int);
            assert(rem < spec_days_in_month(y as int, 12));
        }
    }
    (y, m, rem + 1)
}

/// Whether `c` is a decimal digit character.
pub open spec fn spec_is_digit_char(c: char) -> bool {
    c == '0' || c == '1' || c == '2' || c == '3' || c == '4' || c == '5' || c == '6' || c == '7'
        || c == '8' || c == '9'
}

/// Two-digit zero-padded rendering.
pub open spec fn spec_pad2(n: int) -> Seq<char> {
    seq![spec_digit_char((n / 10) as nat), spec_digit_char((n % 10) as nat)]
}

/// Four-digit zero-padded rendering.
pub open spec fn spec_pad4(n: int) -> Seq<char> {
    seq![
        spec_digit_char((n / 1000) as nat),
        spec_digit_char(((n / 100) % 10) as nat),
        spec_digit_char(((n / 10) % 10) as nat),
        spec_digit_char((n % 10) as nat),
    ]
}

/// Append the two-digit rendering of `n` to `s`.
pub fn push_pad2(s: &mut String, n: u64)
    requires
        n < 100,
    ensures
        final(s)@ == old(s)@ + spec_pad2(n as int),
{
    s.append(digit_str(n / 10));
    s.append(digit_str(n % 10));
    proof {
        assert(old(s)@ + seq![spec_digit_char((n as int / 10) as nat)] + seq![
            spec_digit_char((n as int % 10) as nat),
        ] =~= old(s)@ + spec_pad2(n as int));
    }
}

/// Append the four-digit rendering of `n` to `s`.
pub fn push_pad4(s: &mut String, n: u64)
    requires
        n < 10000,
    ensures
        final(s)@ == old(s)@ + spec_pad4(n as int),
{
    s.append(digit_str(n / 1000));
    s.append(digit_str((n / 100) % 10));
    s.append(digit_str((n / 10) % 10));
    s.append(digit_str(n % 10));
    proof {
        assert(old(s)@ + seq![spec_digit_char((n as int / 1000) as nat)] + seq![
            spec_digit_char(((n as int / 100) % 10) as nat),
        ] + seq![spec_digit_char(((n as int / 10) % 10) as nat)] + seq![
            spec_digit_char((n as int % 10) as nat),
        ] =~= old(s)@ + spec_pad4(n as int));
    }
}

/// The RFC 3339 rendering of a civil date-time with a UTC offset in minutes.
/// A zero offset renders as `Z`, as the well-known format does.
pub open spec fn spec_rfc3339(
    y: int,
    m: int,
    d: int,
    hh: int,
    mi: int,
    ss: int,
    off_minutes: int,
) -> Seq<char> {
    spec_pad4(y) + seq!['-'] + spec_pad2(m) + seq!['-'] + spec_pad2(d) + seq!['T'] + spec_pad2(hh)
        + seq![':'] + spec_pad2(mi) + seq![':'] + spec_pad2(ss) + (if off_minutes == 0 {
        seq!['Z']
    } else if off_minutes > 0 {
        seq!['+'] + spec_pad2(off_minutes / 60) + seq![':'] + spec_pad2(off_minutes % 60)
    } else {
        seq!['-'] + spec_pad2((-off_minutes) / 60) + seq![':'] + spec_pad2((-off_minutes) % 60)
    })
}

/// An offset in seconds, clamped into the range valid UTC offsets occupy.
pub open spec fn spec_clamp_offset(off: int) -> int {
    if off < -93599 {
        -93599
    } else if off > 93599 {
        93599
    } else {
        off
    }
}

/// The rendered offset: whole minutes of the clamped offset, rounded
/// toward zero.
pub open spec fn spec_offset_minutes(off: int) -> int {
    if spec_clamp_offset(off) >= 0 {
        spec_clamp_offset(off) / 60
    } else {
        -((-spec_clamp_offset(off)) / 60)
    }
}

/// A clock in epoch seconds, clamped into the window the renderer covers
/// (from the epoch up into year 9997).
pub open spec fn spec_clamp_epoch(epoch: int) -> int {
    if epoch < 0 {
        0
    } else if epoch > 252000000000 {
        252000000000
    } else {
        epoch
    }
}

/// The local civil clock the timestamp shows: the clamped epoch shifted by
/// the rendered offset, floored at the epoch.
pub open spec fn spec_local_seconds(epoch: int, off: int) -> int {
    if spec_clamp_epoch(epoch) + spec_offset_minutes(off) * 60 < 0 {
        0
    } else {
        spec_clamp_epoch(epoch) + spec_offset_minutes(off) * 60
    }
}

/// Render a civil date-time with an offset in minutes, exactly as
/// `spec_rfc3339` describes it.
#[verifier::rlimit(100)]
pub fn render_rfc3339(y: u64, m: u64, d: u64, hh: u64, mi: u64, ss: u64, off_minutes: i32) -> (r:
    String)
    requires
        y < 10000,
        m < 100,
        d < 100,
        hh < 100,
        mi < 100,
        ss < 100,
        -1560 <= off_minutes <= 1560,
    ensures
        r@ == spec_rfc3339(
            y as int,
            m as int,
            d as int,
            hh as int,
            mi as int,
            ss as int,
            off_minutes as int,
        ),
{
    let mut s = String::new();
    push_pad4(&mut s, y);
    s.append("-");
    push_pad2(&mut s, m);
    s.append("-");
    push_pad2(&mut s, d);
    s.append("T");
    push_pad2(&mut s, hh);
    s.append(":");
    push_pad2(&mut s, mi);
    s.append(":");
    push_pad2(&mut s, ss);
    if off_minutes == 0 {
        s.append("Z");
    } else {
        let abs_m: u64 = if off_minutes < 0 {
            (-(off_minutes as i64)) as u64
        } else {
            off_minutes as u64
        };
        if off_minutes > 0 {
            s.append("+");
        } else {
            s.append("-");
        }
        push_pad2(&mut s, abs_m / 60);
        s.append(":");
        push_pad2(&mut s, abs_m % 60);
    }
    proof {
        reveal_strlit("-");
        reveal_strlit("T");
        reveal_strlit(":");
        reveal_strlit("Z");
        reveal_strlit("+");
        assert(s@ =~= spec_rfc3339(
            y as int,
            m as int,
            d as int,
            hh as int,
            mi as int,
            ss as int,
            off_minutes as int,
        ));
    }
    s
}

/// The timestamp a snapshot message carries, from epoch seconds and an
/// offset in seconds. Out-of-range clocks are clamped into the supported
/// window rather than failing: a snapshot must always have a message.
/// The result is pinned to the clock: it renders the civil date whose day
/// number rebuilds the local clock's day, with the local time of day and
/// the rendered offset.
#[verifier::rlimit(100)]
pub fn format_epoch_rfc3339(epoch: i64, offset_secs: i32) -> (r: String)
    ensures
        spec_timestamp_shape(r@),
        exists|y: int, m: int, d: int|
            {
                &&& 1970 <= y <= 9999
                &&& 1 <= m <= 12
                &&& 1 <= d <= spec_days_in_month(y, m)
                &&& #[trigger] spec_civil_days(y, m, d) == spec_local_seconds(
                    epoch as int,
                    offset_secs as int,
                ) / 86400
                &&& r@ == spec_rfc3339(
                    y,
                    m,
                    d,
                    (spec_local_seconds(epoch as int, offset_secs as int) % 86400) / 3600,
                    ((spec_local_seconds(epoch as int, offset_secs as int) % 86400) % 3600) / 60,
                    (spec_local_seconds(epoch as int, offset_secs as int) % 86400) % 60,
                    spec_offset_minutes(offset_secs as int),
                )
            },
{
    // Clamp the offset to the range valid UTC offsets occupy, whole minutes.
    let off: i32 = if offset_secs < -93599 {
        -93599
    } else if offset_secs > 93599 {
        93599
    } else {
        offset_secs
    };
    let off_minutes: i32 = if off >= 0 {
        off / 60
    } else {
        -((-off) / 60)
    };
    proof {
        assert(off == spec_clamp_offset(offset_secs as int));
        assert(off_minutes == spec_offset_minutes(offset_secs as int));
    }
    // Clamp the clock into [1970-01-01, year 9997] before shifting.
    let base: i64 = if epoch < 0 {
        0
    } else if epoch > 252000000000i64 {
        252000000000i64
    } else {
        epoch
    };
    let shifted: i64 = base + (off_minutes as i64) * 60;
    let local: u64 = if shifted < 0 {
        0
    } else {
        shifted as u64
    };
    proof {
        assert(base == spec_clamp_epoch(epoch as int));
        assert(local == spec_local_seconds(epoch as int, offset_secs as int));
    }
    let days: u64 = local / 86400;
    let sod: u64 = local % 86400;
    proof {
        assert(local <= 252000093540u64);
        assert(local / 86400u64 < 2930950) by (nonlinear_arith)
            requires
                local <= 252000093540u64,
        ;
        assert(days < spec_max_days());
    }
    let (y, m, d) = civil_from_days(days);
    let hh: u64 = sod / 3600;
    let mi: u64 = (sod % 3600) / 60;
    let ss: u64 = sod % 60;
    let s = render_rfc3339(y, m, d, hh, mi, ss, off_minutes);
    proof {
        lemma_rfc3339_shape(
            y as int,
            m as int,
            d as int,
            hh as int,
            mi as int,
            ss as int,
            off_minutes as int,
        );
        // The computed date is the witness tying the result to the clock.
        let ghost lsec = spec_local_seconds(epoch as int, offset_secs as int);
        assert(days == lsec / 86400 && sod == lsec % 86400);
        assert(hh == (lsec % 86400) / 3600 && mi == ((lsec % 86400) % 3600) / 60 && ss == (lsec
            % 86400) % 60);
        assert(spec_civil_days(y as int, m as int, d as int) == lsec / 86400);
    }
    s
}

/// The shape the message invariant quotes: four digit year, dashed date,
/// `T`, and a two-digit hour and minute each followed by a colon.
pub open spec fn spec_timestamp_shape(ts: Seq<char>) -> bool {
    ts.len() >= 17 && spec_is_digit_char(ts[0]) && spec_is_digit_char(ts[1]) && spec_is_digit_char(
        ts[2],
    ) && spec_is_digit_char(ts[3]) && ts[4] == '-' && spec_is_digit_char(ts[5])
        && spec_is_digit_char(ts[6]) && ts[7] == '-' && spec_is_digit_char(ts[8])
        && spec_is_digit_char(ts[9]) && ts[10] == 'T' && spec_is_digit_char(ts[11])
        && spec_is_digit_char(ts[12]) && ts[13] == ':' && spec_is_digit_char(ts[14])
        && spec_is_digit_char(ts[15]) && ts[16] == ':'
}

/// Any rendered timestamp has the quoted shape.
pub proof fn lemma_rfc3339_shape(y: int, m: int, d: int, hh: int, mi: int, ss: int, om: int)
    ensures
        spec_timestamp_shape(spec_rfc3339(y, m, d, hh, mi, ss, om)),
{
    let ts = spec_rfc3339(y, m, d, hh, mi, ss, om);
    assert(ts[0] == spec_digit_char((y / 1000) as nat));
    assert(ts[1] == spec_digit_char(((y / 100) % 10) as nat));
    assert(ts[2] == spec_digit_char(((y / 10) % 10) as nat));
    assert(ts[3] == spec_digit_char((y % 10) as nat));
    assert(ts[4] == '-');
    assert(ts[5] == spec_digit_char((m / 10) as nat));
    assert(ts[6] == spec_digit_char((m % 10) as nat));
    assert(ts[7] == '-');
    assert(ts[8] == spec_digit_char((d / 10) as nat));
    assert(ts[9] == spec_digit_char((d % 10) as nat));
    assert(ts[10] == 'T');
    assert(ts[11] == spec_digit_char((hh / 10) as nat));
    assert(ts[12] == spec_digit_char((hh % 10) as nat));
    assert(ts[13] == ':');
    assert(ts[14] == spec_digit_char((mi / 10) as nat));
    assert(ts[15] == spec_digit_char((mi % 10) as nat));
    assert(ts[16] == ':');
}

} // verus!
