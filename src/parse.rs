use vstd::prelude::*;

use arrow::compute::kernels::cast_utils::string_to_timestamp_nanos;
use chrono::{DateTime, Datelike, NaiveDate, NaiveDateTime};

use crate::cast::floor_div;
use crate::types::{ColumnData, ColumnarValue};

verus! {

/// Nanoseconds in one second.
pub const NANOS_PER_SECOND: i64 = 1_000_000_000;

/// Day number, counted from 1 January of year 1 as day 1, of 1970-01-01.
pub const EPOCH_DAY_FROM_CE: i64 = 719_163;

/// Nanoseconds since the epoch that the default layout reads from a text.
pub uninterp spec fn default_layout_nanos(s: Seq<char>) -> Option<i64>;

/// Seconds and sub-second nanoseconds of a text read by a format with an offset.
pub uninterp spec fn offset_datetime_parse(s: Seq<char>, f: Seq<char>) -> Option<(i64, u32)>;

/// Seconds and sub-second nanoseconds of a text read by a format as a UTC date and time.
pub uninterp spec fn naive_datetime_parse(s: Seq<char>, f: Seq<char>) -> Option<(i64, u32)>;

/// Day number from the common era of a text read by a format as a date.
pub uninterp spec fn naive_date_parse(s: Seq<char>, f: Seq<char>) -> Option<i32>;

/// Relies on arrow's `string_to_timestamp_nanos`: RFC 3339 and close variants,
/// read as UTC where the text holds no offset; the result depends on the text alone.
#[verifier::external_body]
fn parse_default_layout(s: &str) -> (r: Option<i64>)
    ensures
        r == default_layout_nanos(s@),
{
    string_to_timestamp_nanos(s).ok()
}

/// Relies on chrono's `DateTime::parse_from_str`: a text with a UTC offset under
/// a strftime format, as its Unix seconds and sub-second nanoseconds.
#[verifier::external_body]
fn parse_offset_datetime(s: &str, f: &str) -> (r: Option<(i64, u32)>)
    ensures
        r == offset_datetime_parse(s@, f@),
{
    match DateTime::parse_from_str(s, f) {
        Ok(t) => Some((t.timestamp(), t.timestamp_subsec_nanos())),
        Err(_) => None,
    }
}

/// Relies on chrono's `NaiveDateTime::parse_from_str`: a date and time without
/// offset under a strftime format, taken as UTC, as Unix seconds and sub-second nanoseconds.
#[verifier::external_body]
fn parse_naive_datetime(s: &str, f: &str) -> (r: Option<(i64, u32)>)
    ensures
        r == naive_datetime_parse(s@, f@),
{
    match NaiveDateTime::parse_from_str(s, f) {
        Ok(t) => {
            let utc = t.and_utc();
            Some((utc.timestamp(), utc.timestamp_subsec_nanos()))
        },
        Err(_) => None,
    }
}

/// Relies on chrono's `NaiveDate::parse_from_str`: a date under a strftime
/// format, as its day number from the common era (`num_days_from_ce`).
#[verifier::external_body]
fn parse_naive_date(s: &str, f: &str) -> (r: Option<i32>)
    ensures
        r == naive_date_parse(s@, f@),
{
    match NaiveDate::parse_from_str(s, f) {
        Ok(d) => Some(d.num_days_from_ce()),
        Err(_) => None,
    }
}

/// The instant `secs` seconds and `subsec` nanoseconds after the epoch, in
/// nanoseconds, where that fits in 64 bits.
pub open spec fn instant_nanos(secs: int, subsec: int) -> Option<i64> {
    let n = secs * 1_000_000_000 + subsec;
    if i64::MIN <= n <= i64::MAX {
        Some(n as i64)
    } else {
        None
    }
}

/// Nanoseconds since the epoch from the readings of one text under one format:
/// the reading with an offset if there is one, else the UTC date and time,
/// else midnight UTC of the date.
pub open spec fn readings_nanos(
    offset: Option<(i64, u32)>,
    naive: Option<(i64, u32)>,
    date: Option<i32>,
) -> Option<i64> {
    match offset {
        Some((secs, subsec)) => instant_nanos(secs as int, subsec as int),
        None => match naive {
            Some((secs, subsec)) => instant_nanos(secs as int, subsec as int),
            None => match date {
                Some(day) => instant_nanos((day - 719_163) * 86400, 0),
                None => None,
            },
        },
    }
}

/// Nanoseconds since the epoch of a text under one format.
pub open spec fn formatted_nanos(s: Seq<char>, f: Seq<char>) -> Option<i64> {
    readings_nanos(offset_datetime_parse(s, f), naive_datetime_parse(s, f), naive_date_parse(s, f))
}

/// Whole seconds, toward the earlier second, of a count of nanoseconds.
pub open spec fn nanos_to_seconds(n: i64) -> i64 {
    (n as int / 1_000_000_000) as i64
}

/// Nanoseconds of `secs` seconds and `subsec` nanoseconds after the epoch, if that fits.
pub fn nanos_of_parts(secs: i64, subsec: u32) -> (r: Option<i64>)
    ensures
        r == instant_nanos(secs as int, subsec as int),
{
    let n: i128 = secs as i128 * 1_000_000_000i128 + subsec as i128;
    if i64::MIN as i128 <= n && n <= i64::MAX as i128 {
        Some(n as i64)
    } else {
        None
    }
}

/// Nanoseconds since the epoch from the three readings of a text under a format.
pub fn nanos_from_readings(offset: Option<(i64, u32)>, naive: Option<(i64, u32)>, date: Option<i32>) -> (r:
    Option<i64>)
    ensures
        r == readings_nanos(offset, naive, date),
{
    match offset {
        Some((secs, subsec)) => nanos_of_parts(secs, subsec),
        None => match naive {
            Some((secs, subsec)) => nanos_of_parts(secs, subsec),
            None => match date {
                Some(day) => nanos_of_parts((day as i64 - EPOCH_DAY_FROM_CE) * 86400, 0),
                None => None,
            },
        },
    }
}

/// Nanoseconds since the epoch of `s` under the format `f`, if it matches;
/// a later reading is made only where the earlier ones fail.
pub fn parse_formatted_nanos(s: &str, f: &str) -> (r: Option<i64>)
    ensures
        r == formatted_nanos(s@, f@),
{
    let offset = parse_offset_datetime(s, f);
    if offset.is_some() {
        return nanos_from_readings(offset, None, None);
    }
    let naive = parse_naive_datetime(s, f);
    if naive.is_some() {
        return nanos_from_readings(offset, naive, None);
    }
    nanos_from_readings(offset, naive, parse_naive_date(s, f))
}

/// The format that argument `c` gives row `i`: a scalar gives its value to
/// every row, an array its element `i`; null gives none.
pub open spec fn format_at(c: ColumnarValue, i: int) -> Option<Seq<char>> {
    match c {
        ColumnarValue::Scalar(ColumnData::Utf8(v)) => if v@.len() > 0 && v@[0] is Some {
            Some(v@[0]->Some_0@)
        } else {
            None
        },
        ColumnarValue::Array(ColumnData::Utf8(v)) => if 0 <= i < v@.len() && v@[i] is Some {
            Some(v@[i]->Some_0@)
        } else {
            None
        },
        _ => None,
    }
}

fn format_for_row(c: &ColumnarValue, i: usize) -> (r: Option<&str>)
    ensures
        format_at(*c, i as int) == (match r {
            Some(f) => Some(f@),
            None => None::<Seq<char>>,
        }),
{
    match c {
        ColumnarValue::Scalar(ColumnData::Utf8(v)) => {
            if v.len() > 0 {
                match &v[0] {
                    Some(f) => Some(f.as_str()),
                    None => None,
                }
            } else {
                None
            }
        },
        ColumnarValue::Array(ColumnData::Utf8(v)) => {
            if i < v.len() {
                match &v[i] {
                    Some(f) => Some(f.as_str()),
                    None => None,
                }
            } else {
                None
            }
        },
        _ => None,
    }
}

/// Row `i` with text `s` under the formats of `args[k..]`, tried in order:
/// the first that matches gives the seconds; `None` when every format given
/// failed, and a null row when no format was given at all (`tried` says
/// whether one before `k` was).
pub open spec fn seconds_by_formats(
    s: Seq<char>,
    args: Seq<ColumnarValue>,
    i: int,
    k: int,
    tried: bool,
) -> Option<Option<i64>>
    decreases args.len() - k,
{
    if k < 0 || k >= args.len() {
        if tried {
            None
        } else {
            Some(None)
        }
    } else {
        match format_at(args[k], i) {
            None => seconds_by_formats(s, args, i, k + 1, tried),
            Some(f) => match formatted_nanos(s, f) {
                Some(n) => Some(Some(nanos_to_seconds(n))),
                None => seconds_by_formats(s, args, i, k + 1, true),
            },
        }
    }
}

/// Row `i` of a text column converted to seconds, with the formats of
/// `args[1..]`, or with the default layout when `args` holds the column
/// alone: `Some(None)` for a null row, `None` where the text fails to parse.
pub open spec fn text_row_seconds(vals: Seq<Option<String>>, args: Seq<ColumnarValue>, i: int) -> Option<Option<i64>> {
    match vals[i] {
        None => Some(None),
        Some(s) => if args.len() <= 1 {
            match default_layout_nanos(s@) {
                Some(n) => Some(Some(nanos_to_seconds(n))),
                None => None,
            }
        } else {
            seconds_by_formats(s@, args, i, 1, false)
        },
    }
}

/// Seconds of text `s` in row `i` under the formats of `args[1..]`, tried in order.
pub fn seconds_with_formats(s: &str, args: &Vec<ColumnarValue>, i: usize) -> (r: Option<Option<i64>>)
    ensures
        r == seconds_by_formats(s@, args@, i as int, 1, false),
{
    let mut k: usize = 1;
    let mut tried = false;
    if args.len() == 0 {
        return Some(None);
    }
    while k < args.len()
        invariant
            1 <= k <= args@.len(),
            seconds_by_formats(s@, args@, i as int, k as int, tried)
                == seconds_by_formats(s@, args@, i as int, 1, false),
        decreases args@.len() - k,
    {
        match format_for_row(&args[k], i) {
            Some(f) => match parse_formatted_nanos(s, f) {
                Some(n) => {
                    return Some(Some(floor_div(n, NANOS_PER_SECOND)));
                },
                None => {
                    tried = true;
                },
            },
            None => {},
        }
        k += 1;
    }
    if tried {
        None
    } else {
        Some(None)
    }
}

/// Row `i` of the text column `vals`, converted to seconds.
pub fn text_row(vals: &Vec<Option<String>>, args: &Vec<ColumnarValue>, i: usize) -> (r: Option<Option<i64>>)
    requires
        i < vals@.len(),
    ensures
        r == text_row_seconds(vals@, args@, i as int),
{
    match &vals[i] {
        None => Some(None),
        Some(s) => {
            if args.len() <= 1 {
                match parse_default_layout(s.as_str()) {
                    Some(n) => Some(Some(floor_div(n, NANOS_PER_SECOND))),
                    None => None,
                }
            } else {
                seconds_with_formats(s.as_str(), args, i)
            }
        },
    }
}

} // verus!
