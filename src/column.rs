use vstd::prelude::*;

use crate::cast::{date32_seconds, date64_seconds, ticks_per_second, timestamp_seconds};
use crate::types::ColumnData;

verus! {

/// Number of elements of a column; a column of an unread type counts none.
pub open spec fn column_len(d: ColumnData) -> nat {
    match d {
        ColumnData::Null(n) => n as nat,
        ColumnData::Int32(v) => v@.len(),
        ColumnData::Int64(v) => v@.len(),
        ColumnData::Date32(v) => v@.len(),
        ColumnData::Date64(v) => v@.len(),
        ColumnData::Timestamp(_, _, v) => v@.len(),
        ColumnData::Utf8(v) => v@.len(),
        ColumnData::Other(_) => 0,
    }
}

/// Whether element `i` of the column is null.
pub open spec fn is_null_at(d: ColumnData, i: int) -> bool {
    match d {
        ColumnData::Null(_) => true,
        ColumnData::Int32(v) => v@[i] is None,
        ColumnData::Int64(v) => v@[i] is None,
        ColumnData::Date32(v) => v@[i] is None,
        ColumnData::Date64(v) => v@[i] is None,
        ColumnData::Timestamp(_, _, v) => v@[i] is None,
        ColumnData::Utf8(v) => v@[i] is None,
        ColumnData::Other(_) => false,
    }
}

/// The types converted by a cast alone, with no parsing.
pub open spec fn is_cast_type(d: ColumnData) -> bool {
    !(d is Utf8) && !(d is Other)
}

/// Seconds since the epoch of element `i` of a column of a cast type:
/// integers as they are, dates at midnight UTC, timestamps truncated
/// toward the earlier second; null stays null.
pub open spec fn cast_seconds_at(d: ColumnData, i: int) -> Option<i64> {
    match d {
        ColumnData::Int32(v) => match v@[i] {
            Some(x) => Some(x as i64),
            None => None,
        },
        ColumnData::Int64(v) => v@[i],
        ColumnData::Date32(v) => match v@[i] {
            Some(x) => Some((x as int * 86400) as i64),
            None => None,
        },
        ColumnData::Date64(v) => match v@[i] {
            Some(x) => Some((x as int / 1000) as i64),
            None => None,
        },
        ColumnData::Timestamp(u, _, v) => match v@[i] {
            Some(x) => Some((x as int / ticks_per_second(u)) as i64),
            None => None,
        },
        _ => None,
    }
}

/// A column of a cast type converted to seconds since the epoch, element by element.
pub open spec fn cast_column(d: ColumnData) -> Seq<Option<i64>> {
    Seq::new(column_len(d), |i: int| cast_seconds_at(d, i))
}

/// Converts every element of a column of a cast type to seconds since the epoch.
#[verifier::loop_isolation(false)]
pub fn cast_column_seconds(d: &ColumnData) -> (r: Vec<Option<i64>>)
    requires
        is_cast_type(*d),
    ensures
        r@ == cast_column(*d),
{
    let mut out: Vec<Option<i64>> = Vec::new();
    match d {
        ColumnData::Null(n) => {
            let mut i: usize = 0;
            while i < *n
                invariant
                    i <= *n,
                    out@.len() == i,
                    forall|j: int| 0 <= j < i ==> out@[j] is None,
                decreases *n - i,
            {
                out.push(None);
                i += 1;
            }
        },
        ColumnData::Int32(v) => {
            let mut i: usize = 0;
            while i < v.len()
                invariant
                    i <= v@.len(),
                    out@.len() == i,
                    forall|j: int| 0 <= j < i ==> out@[j] == cast_seconds_at(*d, j),
                decreases v@.len() - i,
            {
                let e = match v[i] {
                    Some(x) => Some(x as i64),
                    None => None,
                };
                out.push(e);
                i += 1;
            }
        },
        ColumnData::Int64(v) => {
            let mut i: usize = 0;
            while i < v.len()
                invariant
                    i <= v@.len(),
                    out@.len() == i,
                    forall|j: int| 0 <= j < i ==> out@[j] == cast_seconds_at(*d, j),
                decreases v@.len() - i,
            {
                out.push(v[i]);
                i += 1;
            }
        },
        ColumnData::Date32(v) => {
            let mut i: usize = 0;
            while i < v.len()
                invariant
                    i <= v@.len(),
                    out@.len() == i,
                    forall|j: int| 0 <= j < i ==> out@[j] == cast_seconds_at(*d, j),
                decreases v@.len() - i,
            {
                let e = match v[i] {
                    Some(x) => Some(date32_seconds(x)),
                    None => None,
                };
                out.push(e);
                i += 1;
            }
        },
        ColumnData::Date64(v) => {
            let mut i: usize = 0;
            while i < v.len()
                invariant
                    i <= v@.len(),
                    out@.len() == i,
                    forall|j: int| 0 <= j < i ==> out@[j] == cast_seconds_at(*d, j),
                decreases v@.len() - i,
            {
                let e = match v[i] {
                    Some(x) => Some(date64_seconds(x)),
                    None => None,
                };
                out.push(e);
                i += 1;
            }
        },
        ColumnData::Timestamp(u, _, v) => {
            let mut i: usize = 0;
            while i < v.len()
                invariant
                    i <= v@.len(),
                    out@.len() == i,
                    forall|j: int| 0 <= j < i ==> out@[j] == cast_seconds_at(*d, j),
                decreases v@.len() - i,
            {
                let e = match v[i] {
                    Some(x) => Some(timestamp_seconds(*u, x)),
                    None => None,
                };
                out.push(e);
                i += 1;
            }
        },
        _ => {},
    }
    assert(out@ =~= cast_column(*d));
    out
}

} // verus!
