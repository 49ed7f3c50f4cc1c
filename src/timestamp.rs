use vstd::prelude::*;
use crate::stamp::Stamp;

verus! {

/// The character of the decimal digit `d` (0 to 9).
pub open spec fn digit(d: int) -> char {
    seq!['0', '1', '2', '3', '4', '5', '6', '7', '8', '9'][d]
}

/// `c` is one of `0` to `9`.
pub open spec fn is_digit(c: char) -> bool {
    '0' <= c <= '9'
}

/// The decimal digits of `n`, without leading zeros.
pub open spec fn decimal(n: nat) -> Seq<char>
    decreases n,
{
    if n < 10 {
        seq![digit(n as int)]
    } else {
        decimal(n / 10).push(digit((n % 10) as int))
    }
}

/// The decimal digits of `n`, with zeros in front up to `width` characters.
pub open spec fn zero_padded(n: nat, width: nat) -> Seq<char> {
    let d = decimal(n);
    if d.len() < width {
        Seq::new((width - d.len()) as nat, |i: int| '0') + d
    } else {
        d
    }
}

/// A field of 0 to 99 as two digits.
pub open spec fn two_digits(n: int) -> Seq<char> {
    seq![digit(n / 10), digit(n % 10)]
}

/// A year as four digits or more; outside 0 to 9999 it carries its sign.
pub open spec fn year_text(year: int) -> Seq<char> {
    if 0 <= year <= 9999 {
        zero_padded(year as nat, 4)
    } else if year < 0 {
        seq!['-'] + zero_padded((-year) as nat, 4)
    } else {
        seq!['+'] + zero_padded(year as nat, 4)
    }
}

/// A reading rendered as `YYYY-MM-DD HH:MM:SS`.
pub open spec fn stamp_text(s: Stamp) -> Seq<char> {
    year_text(s.year as int) + seq!['-'] + two_digits(s.month as int) + seq!['-'] + two_digits(
        s.day as int,
    ) + seq![' '] + two_digits(s.hour as int) + seq![':'] + two_digits(s.minute as int) + seq![
        ':',
    ] + two_digits(s.second as int)
}

/// The strftime pattern of a timestamp.
pub open spec fn timestamp_pattern() -> Seq<char> {
    seq!['%', 'Y', '-', '%', 'm', '-', '%', 'd', ' ', '%', 'H', ':', '%', 'M', ':', '%', 'S']
}

proof fn lemma_digit(d: int)
    requires
        0 <= d <= 9,
    ensures
        is_digit(digit(d)),
        digit(d) != '\n',
{
    let ds = seq!['0', '1', '2', '3', '4', '5', '6', '7', '8', '9'];
    assert(ds[0] == '0' && ds[1] == '1' && ds[2] == '2' && ds[3] == '3' && ds[4] == '4');
    assert(ds[5] == '5' && ds[6] == '6' && ds[7] == '7' && ds[8] == '8' && ds[9] == '9');
}

proof fn lemma_decimal(n: nat)
    ensures
        1 <= decimal(n).len(),
        n < 10 ==> decimal(n).len() == 1,
        n < 100 ==> decimal(n).len() <= 2,
        n < 1000 ==> decimal(n).len() <= 3,
        n < 10000 ==> decimal(n).len() <= 4,
        forall|i: int| 0 <= i < decimal(n).len() ==> is_digit(#[trigger] decimal(n)[i]),
    decreases n,
{
    if n < 10 {
        lemma_digit(n as int);
    } else {
        lemma_decimal(n / 10);
        lemma_digit((n % 10) as int);
    }
}

proof fn lemma_two_digits(n: int)
    requires
        0 <= n < 100,
    ensures
        two_digits(n).len() == 2,
        is_digit(two_digits(n)[0]),
        is_digit(two_digits(n)[1]),
{
    lemma_digit(n / 10);
    lemma_digit(n % 10);
}

proof fn lemma_four_digit_year(year: int)
    requires
        0 <= year <= 9999,
    ensures
        year_text(year).len() == 4,
        forall|i: int| 0 <= i < 4 ==> is_digit(#[trigger] year_text(year)[i]),
{
    lemma_decimal(year as nat);
    let d = decimal(year as nat);
    let t = year_text(year);
    assert forall|i: int| 0 <= i < 4 implies is_digit(#[trigger] t[i]) by {
        if d.len() < 4 {
            let pad = Seq::new((4 - d.len()) as nat, |k: int| '0');
            assert(t == pad + d);
            if i < pad.len() {
                assert(t[i] == pad[i]);
            } else {
                assert(t[i] == d[i - pad.len()]);
            }
        }
    }
}

/// The shape `DDDD-DD-DD DD:DD:DD`, each `D` a decimal digit.
pub open spec fn is_timestamp_shape(t: Seq<char>) -> bool {
    &&& t.len() == 19
    &&& forall|i: int|
        0 <= i < 19 && i != 4 && i != 7 && i != 10 && i != 13 && i != 16 ==> is_digit(
            #[trigger] t[i],
        )
    &&& t[4] == '-' && t[7] == '-' && t[10] == ' ' && t[13] == ':' && t[16] == ':'
}

/// A valid reading of a year from 0 to 9999 renders in the shape
/// `DDDD-DD-DD DD:DD:DD`.
pub proof fn lemma_timestamp_shape(s: Stamp)
    requires
        s.wf(),
        0 <= s.year <= 9999,
    ensures
        is_timestamp_shape(stamp_text(s)),
{
    lemma_four_digit_year(s.year as int);
    lemma_two_digits(s.month as int);
    lemma_two_digits(s.day as int);
    lemma_two_digits(s.hour as int);
    lemma_two_digits(s.minute as int);
    lemma_two_digits(s.second as int);
    let y = year_text(s.year as int);
    let t = stamp_text(s);
    assert(t.len() == 19);
    assert(t[4] == '-' && t[7] == '-' && t[10] == ' ' && t[13] == ':' && t[16] == ':');
    assert forall|i: int|
        0 <= i < 19 && i != 4 && i != 7 && i != 10 && i != 13 && i != 16 implies is_digit(
        #[trigger] t[i],
    ) by {
        if i < 4 {
            assert(t[i] == y[i]);
        }
    }
}

/// Relies on chrono's `NaiveDate::from_ymd_opt` and `NaiveDate::and_hms_opt`,
/// which accept every existing date of years MIN_YEAR to MAX_YEAR and every
/// time of day with a second below 60, and on `NaiveDateTime::format`, which
/// for `%Y-%m-%d %H:%M:%S` writes the year zero-padded to four digits (with a
/// sign outside 0 to 9999) and every other field as two zero-padded digits.
#[verifier::external_body]
fn chrono_format(s: &Stamp, pattern: &str) -> (r: String)
    requires
        s.wf(),
        pattern@ == timestamp_pattern(),
    ensures
        r@ == stamp_text(*s),
{
    let date = chrono::NaiveDate::from_ymd_opt(s.year, s.month, s.day).unwrap();
    date.and_hms_opt(s.hour, s.minute, s.second).unwrap().format(pattern).to_string()
}

/// Nanoseconds in a second.
pub const NANOS_PER_SECOND: u32 = 1_000_000_000;

/// Relies on std's `SystemTime::elapsed`, called on `UNIX_EPOCH`: `Ok` with
/// the time since 1970-01-01 00:00:00 UTC, or, for a clock that reads
/// earlier, `Err` whose `duration` is the time before it; each as whole
/// seconds and the nanoseconds beyond them, which `Duration::subsec_nanos`
/// keeps below one billion. The reading itself depends on the clock.
#[verifier::external_body]
fn epoch_offset() -> (r: Result<(u64, u32), (u64, u32)>)
    ensures
        r matches Ok((s, n)) ==> n < NANOS_PER_SECOND,
        r matches Err((s, n)) ==> n < NANOS_PER_SECOND,
{
    match std::time::UNIX_EPOCH.elapsed() {
        Ok(d) => Ok((d.as_secs(), d.subsec_nanos())),
        Err(e) => Err((e.duration().as_secs(), e.duration().subsec_nanos())),
    }
}

/// The signed distance from 1970-01-01 00:00:00 UTC, in nanoseconds, of a
/// clock reading given as in `epoch_offset`: after the epoch for `Ok`,
/// before it for `Err`.
pub open spec fn offset_nanos(since: Result<(u64, u32), (u64, u32)>) -> int {
    match since {
        Ok((s, n)) => s * NANOS_PER_SECOND + n,
        Err((s, n)) => -(s * NANOS_PER_SECOND + n),
    }
}

/// A clock reading as a Unix timestamp: whole seconds, rounded down, and the
/// nanoseconds beyond them; `None` where the seconds do not fit an `i64`.
pub fn signed_timestamp(since: Result<(u64, u32), (u64, u32)>) -> (r: Option<(i64, u32)>)
    requires
        since matches Ok((s, n)) ==> n < NANOS_PER_SECOND,
        since matches Err((s, n)) ==> n < NANOS_PER_SECOND,
    ensures
        r is Some <==> i64::MIN <= offset_nanos(since) / (NANOS_PER_SECOND as int) <= i64::MAX,
        r matches Some((t, k)) ==> k < NANOS_PER_SECOND && t * NANOS_PER_SECOND + k
            == offset_nanos(since),
{
    let ghost g: int = NANOS_PER_SECOND as int;
    match since {
        Ok((s, n)) => {
            assert((s * g + n) / g == s) by (nonlinear_arith)
                requires
                    0 <= n < g,
                    g == 1_000_000_000,
                    s >= 0,
            ;
            if s <= i64::MAX as u64 {
                Some((s as i64, n))
            } else {
                None
            }
        },
        Err((s, n)) => {
            if n == 0 {
                assert(-(s * g + n) / g == -s) by (nonlinear_arith)
                    requires
                        n == 0,
                        g == 1_000_000_000,
                ;
                if s <= 9_223_372_036_854_775_808u64 {
                    Some(((0i128 - s as i128) as i64, 0))
                } else {
                    None
                }
            } else {
                assert(-(s * g + n) / g == -s - 1) by (nonlinear_arith)
                    requires
                        0 < n < g,
                        g == 1_000_000_000,
                ;
                if s <= i64::MAX as u64 {
                    Some((-(s as i64) - 1, NANOS_PER_SECOND - n))
                } else {
                    None
                }
            }
        },
    }
}

/// Relies on chrono's `DateTime::from_timestamp`, which gives `None` for an
/// instant outside its range instead of panicking, and on `with_timezone(&Local)`,
/// read through `Datelike` and `Timelike`: the month is 1 to 12, the day 1 to
/// 31, the hour below 24, the minute and the second below 60. For an instant
/// in chrono's range the zone lookup does not fail. The result depends on the
/// machine's time zone.
#[verifier::external_body]
fn local_reading(secs: i64, nanos: u32) -> (r: Option<Stamp>)
    ensures
        r matches Some(t) ==> 1 <= t.month <= 12 && 1 <= t.day <= 31 && t.hour < 24 && t.minute
            < 60 && t.second < 60,
{
    match chrono::DateTime::from_timestamp(secs, nanos) {
        Some(utc) => {
            let now = utc.with_timezone(&chrono::Local);
            Some(Stamp {
                year: chrono::Datelike::year(&now),
                month: chrono::Datelike::month(&now),
                day: chrono::Datelike::day(&now),
                hour: chrono::Timelike::hour(&now),
                minute: chrono::Timelike::minute(&now),
                second: chrono::Timelike::second(&now),
            })
        },
        None => None,
    }
}

/// Renders a reading as `YYYY-MM-DD HH:MM:SS`.
pub fn format_timestamp(s: &Stamp) -> (r: String)
    requires
        s.wf(),
    ensures
        r@ == stamp_text(*s),
{
    let pattern = "%Y-%m-%d %H:%M:%S";
    proof {
        reveal_strlit("%Y-%m-%d %H:%M:%S");
        assert(pattern@ =~= timestamp_pattern());
    }
    chrono_format(s, pattern)
}

/// The reading to stamp a record with, given what the clock gave: the
/// reading itself where there is one and it names an existing second of the
/// calendar, else the epoch.
pub fn usable_stamp(reading: Option<Stamp>) -> (r: Stamp)
    ensures
        r == (match reading {
            Some(t) => if t.wf() {
                t
            } else {
                Stamp::spec_epoch()
            },
            None => Stamp::spec_epoch(),
        }),
        r.wf(),
{
    match reading {
        Some(t) => if t.is_valid() {
            t
        } else {
            Stamp::epoch()
        },
        None => Stamp::epoch(),
    }
}

/// The current local time, as a valid reading. A clock before 1970 is read
/// as it stands; a clock whose reading chrono cannot represent, or whose
/// local date falls outside the calendar's years, gives the epoch.
pub fn current_stamp() -> (r: Stamp)
    ensures
        r.wf(),
{
    let reading = match signed_timestamp(epoch_offset()) {
        Some((secs, nanos)) => local_reading(secs, nanos),
        None => None,
    };
    usable_stamp(reading)
}

} // verus!
