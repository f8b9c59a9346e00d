//! Modification times of a project's directories: the date text shown for
//! one directory and the signed age difference between two of them.
use vstd::prelude::*;
use vstd::string::StringExecFns;
use chrono::TimeZone;
use crate::text::{decimal, decimal_string, push_char};

verus! {

/// A point in time as seconds and nanoseconds since the Unix epoch, as taken
/// from a file's modification time; `nanos` is below one second.
#[derive(Clone, Copy, Debug, PartialEq, Eq)]
pub struct FileTime {
    pub secs: i64,
    pub nanos: u32,
}

/// Earliest second that `chrono` can represent (start of year -262143).
pub const MIN_TIMESTAMP: i64 = -8334601228800i64;

/// Latest second that `chrono` can represent (end of year 262142).
pub const MAX_TIMESTAMP: i64 = 8210266876799i64;

/// The time lies in `chrono`'s range and its nanoseconds are below a second.
pub open spec fn representable(t: FileTime) -> bool {
    &&& t.nanos < 1_000_000_000
    &&& MIN_TIMESTAMP <= t.secs <= MAX_TIMESTAMP
}

/// Nanoseconds since the epoch.
pub open spec fn total_nanos(t: FileTime) -> int {
    t.secs * 1_000_000_000 + t.nanos
}

/// Fits into an `i64`.
pub open spec fn fits_i64(n: int) -> bool {
    i64::MIN <= n <= i64::MAX
}

/// Nanoseconds from `from` to `to`.
pub open spec fn span_nanos(from: FileTime, to: FileTime) -> int {
    total_nanos(to) - total_nanos(from)
}

/// Whether `t` lies in `chrono`'s range (see `representable`).
pub fn is_representable(t: &FileTime) -> (b: bool)
    ensures
        b == representable(*t),
{
    t.nanos < 1_000_000_000 && MIN_TIMESTAMP <= t.secs && t.secs <= MAX_TIMESTAMP
}

/// Whether the nanoseconds from `from` to `to` fit an `i64`.
pub fn span_fits(from: &FileTime, to: &FileTime) -> (b: bool)
    ensures
        b == fits_i64(span_nanos(*from, *to)),
{
    let n: i128 = (to.secs as i128 - from.secs as i128) * 1_000_000_000i128 + (to.nanos as i128 - from.nanos as i128);
    i64::MIN as i128 <= n && n <= i64::MAX as i128
}

/// Division that rounds toward zero, as Rust's `/` on signed integers.
pub open spec fn div_toward_zero(n: int, d: int) -> int {
    if n >= 0 {
        n / d
    } else {
        -((-n) / d)
    }
}

/// The text of a time difference of `delta` nanoseconds: the whole seconds
/// (rounded toward zero) as `[-][<days>d ]<hours>:<minutes>:<seconds>`, where
/// the day part is left out when there are no whole days and no number is
/// zero-padded.
pub open spec fn diff_text(delta: int) -> Seq<char> {
    let s = div_toward_zero(delta, 1_000_000_000);
    let a = if s < 0 { -s } else { s };
    let days = a / 86400;
    let rest = a % 86400;
    (if s < 0 { seq!['-'] } else { Seq::<char>::empty() })
        + (if days > 0 { decimal(days) + seq!['d', ' '] } else { Seq::<char>::empty() })
        + decimal(rest / 3600) + seq![':'] + decimal(rest % 3600 / 60) + seq![':']
        + decimal(rest % 60)
}

/// Computes with `chrono` the signed duration from `from` to `to`: both are
/// turned into `DateTime<Utc>` with `DateTime::from_timestamp`, subtracted,
/// and the result is read with `TimeDelta::num_nanoseconds`. `from_timestamp`
/// gives `None` exactly outside `chrono`'s range of seconds (for nanoseconds
/// below one second), the subtraction is exact for such times, and
/// `num_nanoseconds` gives `None` exactly when the count overflows an `i64`.
#[verifier::external_body]
fn chrono_span_nanos(from: &FileTime, to: &FileTime) -> (r: Option<i64>)
    requires
        from.nanos < 1_000_000_000,
        to.nanos < 1_000_000_000,
    ensures
        r == (if representable(*from) && representable(*to) && fits_i64(span_nanos(*from, *to)) {
            Some(span_nanos(*from, *to) as i64)
        } else {
            None
        }),
{
    let a = chrono::DateTime::from_timestamp(from.secs, from.nanos);
    let b = chrono::DateTime::from_timestamp(to.secs, to.nanos);
    match (a, b) {
        (Some(a), Some(b)) => (b - a).num_nanoseconds(),
        _ => None,
    }
}

/// Renders a time difference given in nanoseconds (see `diff_text`).
pub fn diff_text_of(delta: i64) -> (res: String)
    ensures
        res@ == diff_text(delta as int),
{
    let neg = delta < 0;
    let mag: u64 = if neg { (-(delta as i128)) as u64 } else { delta as u64 };
    let secs: u64 = mag / 1_000_000_000;
    let days: u64 = secs / 86400;
    let rest: u64 = secs % 86400;
    let mut out = String::new();
    if neg && secs > 0 {
        push_char(&mut out, '-');
    }
    if days > 0 {
        out.append(decimal_string(days as i64).as_str());
        push_char(&mut out, 'd');
        push_char(&mut out, ' ');
    }
    out.append(decimal_string((rest / 3600) as i64).as_str());
    push_char(&mut out, ':');
    out.append(decimal_string((rest % 3600 / 60) as i64).as_str());
    push_char(&mut out, ':');
    out.append(decimal_string((rest % 60) as i64).as_str());
    proof {
        let s = div_toward_zero(delta as int, 1_000_000_000);
        if neg {
            assert(s == -(secs as int));
        } else {
            assert(s == secs as int);
        }
    }
    assert(out@ =~= diff_text(delta as int));
    out
}

/// The difference text between two modification times, `later - earlier`,
/// positive when `later` is the newer one; empty when either time is unknown.
pub fn diff_date(earlier: Option<FileTime>, later: Option<FileTime>) -> (res: String)
    requires
        earlier is Some && later is Some ==> {
            &&& representable(earlier->0)
            &&& representable(later->0)
            &&& fits_i64(span_nanos(earlier->0, later->0))
        },
    ensures
        res@ == (match (earlier, later) {
            (Some(a), Some(b)) => diff_text(span_nanos(a, b)),
            _ => Seq::<char>::empty(),
        }),
{
    match (earlier, later) {
        (Some(a), Some(b)) => {
            let n = chrono_span_nanos(&a, &b);
            match n {
                Some(n) => diff_text_of(n),
                None => String::new(),
            }
        },
        _ => String::new(),
    }
}

/// The `strftime` pattern of the shown change dates: `2024:05:17 13:45:09`.
pub open spec fn change_date_pattern() -> Seq<char> {
    seq!['%', 'Y', ':', '%', 'm', ':', '%', 'd', ' ', '%', 'T']
}

/// What `chrono` writes for the time `secs`/`nanos` seen at a UTC offset of
/// `offset_secs` seconds, formatted with the `strftime` pattern `pattern`.
pub uninterp spec fn timestamp_text(secs: i64, nanos: u32, offset_secs: i32, pattern: Seq<char>) -> Seq<char>;

/// Asks `chrono::Local` (`TimeZone::offset_from_utc_datetime`, then
/// `FixedOffset::local_minus_utc`) for the local UTC offset at `t`. It depends
/// on the machine's time zone; all that is stated is the range that every
/// `FixedOffset` keeps.
#[verifier::external_body]
fn local_offset_at(t: &FileTime) -> (off: i32)
    requires
        representable(*t),
    ensures
        -86400 < off < 86400,
{
    let utc = chrono::DateTime::from_timestamp(t.secs, t.nanos).unwrap();
    chrono::Local.offset_from_utc_datetime(&utc.naive_utc()).local_minus_utc()
}

/// Formats `t` with `chrono` at the fixed UTC offset `offset_secs`
/// (`DateTime::with_timezone`, `DateTime::format`, `to_string`). The result
/// is the name `timestamp_text` of these arguments. Only the change-date
/// pattern is passed, a pattern that `chrono` accepts.
#[verifier::external_body]
fn format_timestamp(t: &FileTime, offset_secs: i32, pattern: &str) -> (s: String)
    requires
        representable(*t),
        -86400 < offset_secs < 86400,
        pattern@ == change_date_pattern(),
    ensures
        s@ == timestamp_text(t.secs, t.nanos, offset_secs, pattern@),
{
    let offset = chrono::FixedOffset::east_opt(offset_secs).unwrap();
    let utc = chrono::DateTime::from_timestamp(t.secs, t.nanos).unwrap();
    utc.with_timezone(&offset).format(pattern).to_string()
}

/// The change date of a directory: its modification time in the local time
/// zone as `YYYY:MM:DD HH:MM:SS`, or empty when the time is unknown.
pub fn change_date(modified: Option<FileTime>) -> (res: String)
    requires
        modified is Some ==> representable(modified->0),
    ensures
        modified is None ==> res@ == Seq::<char>::empty(),
        modified matches Some(t) ==> exists|off: i32|
            -86400 < off < 86400 && res@ == timestamp_text(t.secs, t.nanos, off, change_date_pattern()),
{
    match modified {
        Some(t) => {
            let off = local_offset_at(&t);
            let pattern = "%Y:%m:%d %T";
            proof {
                reveal_strlit("%Y:%m:%d %T");
            }
            assert(pattern@ =~= change_date_pattern());
            format_timestamp(&t, off, pattern)
        },
        None => String::new(),
    }
}

} // verus!
