use vstd::prelude::*;

use crate::cast::ticks_per_second;
use crate::column::{cast_column, column_len, is_cast_type, is_null_at};
use crate::func::formats_are_text;
use crate::parse::{format_at, formatted_nanos, nanos_to_seconds, seconds_by_formats, text_row_seconds};
use crate::types::{ColumnData, ColumnarValue, TimeUnit};

verus! {

/// An integer first argument converts to itself, widened to 64 bits, whatever
/// text arguments follow it.
pub proof fn integers_pass_through(args: Seq<ColumnarValue>, i: int)
    requires
        args.len() >= 1,
        formats_are_text(args),
        args[0].spec_data() is Int32 || args[0].spec_data() is Int64,
        0 <= i < column_len(args[0].spec_data()),
    ensures
        args[0].spec_data() matches ColumnData::Int32(v) ==> cast_column(args[0].spec_data())[i]
            == (match v@[i] {
            Some(x) => Some(x as i64),
            None => None::<i64>,
        }),
        args[0].spec_data() matches ColumnData::Int64(v) ==> cast_column(args[0].spec_data())[i]
            == v@[i],
{
}

/// A date at midnight UTC of day `day` converts to `day` times the seconds of a
/// day, whether held as days (32 bits) or as milliseconds (64 bits).
pub proof fn dates_convert_to_midnight(d: ColumnData, i: int, day: int)
    requires
        0 <= i < column_len(d),
        match d {
            ColumnData::Date32(v) => v@[i] == Some(day as i32) && i32::MIN <= day <= i32::MAX,
            ColumnData::Date64(v) => v@[i] is Some && v@[i]->Some_0 as int == day * 86_400_000,
            _ => false,
        },
    ensures
        cast_column(d)[i] == Some((day * 86400) as i64),
{
    if d is Date64 {
        assert((day * 86_400_000) / 1000 == day * 86400) by (nonlinear_arith);
    }
}

/// A timestamp converts to the last whole second at or before it, and its
/// timezone tag does not change the result.
pub proof fn timestamps_truncate_to_earlier_second(
    unit: TimeUnit,
    tz: Option<String>,
    other_tz: Option<String>,
    v: Vec<Option<i64>>,
    i: int,
)
    requires
        0 <= i < v@.len(),
        v@[i] is Some,
    ensures
        ({
            let t = v@[i]->Some_0 as int;
            let s = cast_column(ColumnData::Timestamp(unit, tz, v))[i]->Some_0 as int;
            s * ticks_per_second(unit) <= t < (s + 1) * ticks_per_second(unit)
        }),
        cast_column(ColumnData::Timestamp(unit, tz, v)) == cast_column(
            ColumnData::Timestamp(unit, other_tz, v),
        ),
{
    let t = v@[i]->Some_0 as int;
    let k = ticks_per_second(unit);
    assert(t / k * k <= t < (t / k + 1) * k) by (nonlinear_arith)
        requires k > 0;
    assert(i64::MIN <= t / k <= i64::MAX) by (nonlinear_arith)
        requires k >= 1, i64::MIN <= t <= i64::MAX;
    assert(cast_column(ColumnData::Timestamp(unit, tz, v)) =~= cast_column(
        ColumnData::Timestamp(unit, other_tz, v),
    ));
}

/// A null element converts to null at the same position, and never fails.
pub proof fn nulls_stay_null(args: Seq<ColumnarValue>, i: int)
    requires
        args.len() >= 1,
        0 <= i < column_len(args[0].spec_data()),
        is_null_at(args[0].spec_data(), i),
    ensures
        is_cast_type(args[0].spec_data()) ==> cast_column(args[0].spec_data())[i] is None,
        args[0].spec_data() matches ColumnData::Utf8(vals) ==> text_row_seconds(vals@, args, i)
            == Some(None::<i64>),
{
}

proof fn formats_from(s: Seq<char>, args: Seq<ColumnarValue>, i: int, j: int, k: int, n: i64, tried: bool)
    requires
        1 <= j <= k < args.len(),
        forall|m: int|
            #![trigger format_at(args[m], i)]
            j <= m < k ==> format_at(args[m], i) is None || formatted_nanos(
                s,
                format_at(args[m], i)->Some_0,
            ) is None,
        format_at(args[k], i) is Some,
        formatted_nanos(s, format_at(args[k], i)->Some_0) == Some(n),
    ensures
        seconds_by_formats(s, args, i, j, tried) == Some(Some(nanos_to_seconds(n))),
    decreases k - j,
{
    if j < k {
        formats_from(s, args, i, j + 1, k, n, true);
        formats_from(s, args, i, j + 1, k, n, tried);
    }
}

/// Formats are tried in order: when every format before the one at position
/// `k` is absent or fails on the text and that one reads it, the row takes
/// the value read under that format.
pub proof fn first_matching_format_wins(s: Seq<char>, args: Seq<ColumnarValue>, i: int, k: int, n: i64)
    requires
        1 <= k < args.len(),
        forall|m: int|
            #![trigger format_at(args[m], i)]
            1 <= m < k ==> format_at(args[m], i) is None || formatted_nanos(
                s,
                format_at(args[m], i)->Some_0,
            ) is None,
        format_at(args[k], i) is Some,
        formatted_nanos(s, format_at(args[k], i)->Some_0) == Some(n),
    ensures
        seconds_by_formats(s, args, i, 1, false) == Some(Some(nanos_to_seconds(n))),
{
    formats_from(s, args, i, 1, k, n, false);
}

/// Converting a column of seconds again gives it back unchanged.
pub proof fn converting_seconds_is_identity(v: Vec<Option<i64>>)
    ensures
        cast_column(ColumnData::Int64(v)) == v@,
{
    assert(cast_column(ColumnData::Int64(v)) =~= v@);
}

} // verus!
