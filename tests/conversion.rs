use to_unixtime::cast::{date32_seconds, date64_seconds, floor_div, timestamp_seconds};
use to_unixtime::column::cast_column_seconds;
use to_unixtime::func::{text_column_seconds, validate_formats};
use to_unixtime::parse::{
    nanos_from_readings, nanos_of_parts, parse_formatted_nanos, seconds_with_formats, text_row,
};
use to_unixtime::{
    ColumnData, ColumnarValue, ConversionError, DataType, TimeUnit, ToUnixtimeFunc, TypeSignature,
    Volatility, FUNCTION_NAME,
};

fn text_scalar(s: &str) -> ColumnarValue {
    ColumnarValue::Scalar(ColumnData::Utf8(vec![Some(s.to_string())]))
}

fn text_array(vals: &[Option<&str>]) -> ColumnarValue {
    ColumnarValue::Array(ColumnData::Utf8(vals.iter().map(|v| v.map(|s| s.to_string())).collect()))
}

fn run(args: Vec<ColumnarValue>) -> Result<ColumnarValue, ConversionError> {
    ToUnixtimeFunc::new().invoke_with_args(&args)
}

fn array_out(r: Result<ColumnarValue, ConversionError>) -> Vec<Option<i64>> {
    match r {
        Ok(ColumnarValue::Array(ColumnData::Int64(v))) => v,
        other => panic!("expected an Int64 array, got {:?}", other),
    }
}

fn scalar_out(r: Result<ColumnarValue, ConversionError>) -> Option<i64> {
    match r {
        Ok(ColumnarValue::Scalar(ColumnData::Int64(v))) => {
            assert_eq!(v.len(), 1);
            v[0]
        }
        other => panic!("expected an Int64 scalar, got {:?}", other),
    }
}

#[test]
fn rfc3339_text_without_formats() {
    let r = run(vec![text_scalar("2020-09-08T12:00:00+00:00")]);
    assert_eq!(scalar_out(r), Some(1599566400));
}

#[test]
fn fourth_format_matches_after_three_fail() {
    let r = run(vec![
        text_scalar("01-14-2023 01:01:30+05:30"),
        text_scalar("%q"),
        text_scalar("%d-%m-%Y %H/%M/%S"),
        text_scalar("%+"),
        text_scalar("%m-%d-%Y %H:%M:%S%#z"),
    ]);
    assert_eq!(scalar_out(r), Some(1673638290));
}

#[test]
fn later_format_used_when_first_fails() {
    let r = run(vec![text_scalar("2023-05-06"), text_scalar("%Y"), text_scalar("%Y-%m-%d")]);
    assert_eq!(scalar_out(r), Some(1683331200));
}

#[test]
fn first_matching_format_is_kept() {
    // Both formats read the text; the first one's reading wins.
    let r = run(vec![
        text_scalar("2023-05-06 01:02:03"),
        text_scalar("%Y-%m-%d %H:%M:%S"),
        text_scalar("%Y-%d-%m %H:%M:%S"),
    ]);
    assert_eq!(scalar_out(r), Some(1683331200 + 3723));
}

#[test]
fn year_and_month_alone_do_not_make_an_instant() {
    let r = run(vec![text_scalar("2023-05"), text_scalar("%Y"), text_scalar("%Y-%m")]);
    match r {
        Err(ConversionError::Parse { value }) => assert_eq!(value, "2023-05"),
        other => panic!("unexpected {:?}", other),
    }
}

#[test]
fn zero_arguments_is_an_arity_error() {
    assert!(matches!(run(vec![]), Err(ConversionError::Arity)));
}

#[test]
fn non_text_format_is_an_argument_type_error() {
    let r = run(vec![
        text_scalar("not even a date"),
        ColumnarValue::Scalar(ColumnData::Int64(vec![Some(42)])),
    ]);
    assert!(matches!(r, Err(ConversionError::ArgumentType { position: 1 })));
    let r = run(vec![
        ColumnarValue::Scalar(ColumnData::Int32(vec![Some(3)])),
        text_scalar("%Y"),
        ColumnarValue::Array(ColumnData::Date32(vec![Some(1)])),
    ]);
    assert!(matches!(r, Err(ConversionError::ArgumentType { position: 2 })));
}

#[test]
fn validation_accepts_text_formats() {
    let args = vec![text_scalar("x"), text_scalar("%Y"), text_array(&[None])];
    assert!(validate_formats(&args).is_ok());
}

#[test]
fn list_column_is_unsupported() {
    let r = run(vec![ColumnarValue::Array(ColumnData::Other("List(Int32)".to_string()))]);
    match r {
        Err(ConversionError::UnsupportedType { name }) => assert_eq!(name, "List(Int32)"),
        other => panic!("unexpected {:?}", other),
    }
}

#[test]
fn int64_column_is_unchanged_twice() {
    let input = vec![Some(0), Some(-1), None, Some(i64::MAX), Some(i64::MIN)];
    let once = array_out(run(vec![ColumnarValue::Array(ColumnData::Int64(input.clone()))]));
    assert_eq!(once, input);
    let twice = array_out(run(vec![ColumnarValue::Array(ColumnData::Int64(once.clone()))]));
    assert_eq!(twice, input);
}

#[test]
fn int32_widens_and_ignores_formats() {
    let col = ColumnarValue::Array(ColumnData::Int32(vec![Some(-5), None, Some(i32::MAX)]));
    let plain = array_out(run(vec![col.clone()]));
    assert_eq!(plain, vec![Some(-5), None, Some(2147483647)]);
    let with_formats = array_out(run(vec![col, text_scalar("%Y"), text_scalar("%s")]));
    assert_eq!(with_formats, plain);
}

#[test]
fn dates_become_midnight_seconds() {
    let r = array_out(run(vec![ColumnarValue::Array(ColumnData::Date32(vec![
        Some(19000),
        Some(-1),
        None,
    ]))]));
    assert_eq!(r, vec![Some(1641600000), Some(-86400), None]);
    let r = array_out(run(vec![ColumnarValue::Array(ColumnData::Date64(vec![
        Some(19000 * 86_400_000),
        Some(-86_400_000),
    ]))]));
    assert_eq!(r, vec![Some(1641600000), Some(-86400)]);
}

#[test]
fn timestamps_truncate_toward_earlier_second() {
    let ms = ColumnarValue::Array(ColumnData::Timestamp(
        TimeUnit::Millisecond,
        None,
        vec![Some(1500), Some(-1500), Some(-1000), None],
    ));
    assert_eq!(array_out(run(vec![ms])), vec![Some(1), Some(-2), Some(-1), None]);
    let ns = ColumnarValue::Scalar(ColumnData::Timestamp(
        TimeUnit::Nanosecond,
        Some("+05:00".to_string()),
        vec![Some(1_599_566_400_999_999_999)],
    ));
    assert_eq!(scalar_out(run(vec![ns])), Some(1599566400));
    let us = ColumnarValue::Array(ColumnData::Timestamp(
        TimeUnit::Microsecond,
        Some("UTC".to_string()),
        vec![Some(-1)],
    ));
    assert_eq!(array_out(run(vec![us])), vec![Some(-1)]);
    let s = ColumnarValue::Array(ColumnData::Timestamp(TimeUnit::Second, None, vec![Some(-7)]));
    assert_eq!(array_out(run(vec![s])), vec![Some(-7)]);
}

#[test]
fn nulls_propagate_for_every_type() {
    assert_eq!(array_out(run(vec![ColumnarValue::Array(ColumnData::Null(3))])), vec![None, None, None]);
    assert_eq!(scalar_out(run(vec![ColumnarValue::Scalar(ColumnData::Null(1))])), None);
    let texts = text_array(&[None, Some("2020-09-08T12:00:00Z"), None]);
    assert_eq!(array_out(run(vec![texts.clone()])), vec![None, Some(1599566400), None]);
    let with_format = array_out(run(vec![texts, text_scalar("%Y-%m-%dT%H:%M:%SZ")]));
    assert_eq!(with_format, vec![None, Some(1599566400), None]);
}

#[test]
fn unparseable_text_fails_the_batch() {
    let r = run(vec![text_array(&[Some("2020-09-08T12:00:00Z"), Some("garbage"), Some("worse")])]);
    match r {
        Err(ConversionError::Parse { value }) => assert_eq!(value, "garbage"),
        other => panic!("unexpected {:?}", other),
    }
}

#[test]
fn null_formats_give_null_rows() {
    let r = run(vec![text_scalar("2020-09-08"), ColumnarValue::Scalar(ColumnData::Utf8(vec![None]))]);
    assert_eq!(scalar_out(r), None);
}

#[test]
fn array_formats_apply_row_by_row() {
    let r = run(vec![
        text_array(&[Some("2020-09-08"), Some("08/09/2020")]),
        text_array(&[Some("%Y-%m-%d"), Some("%d/%m/%Y")]),
    ]);
    assert_eq!(array_out(r), vec![Some(1599523200), Some(1599523200)]);
}

#[test]
fn default_layout_variants() {
    let r = run(vec![text_array(&[
        Some("2020-09-08 12:00:00"),
        Some("2020-09-08T14:00:00+02:00"),
        Some("2020-09-08"),
        Some("1969-12-31T23:59:59.5Z"),
    ])]);
    assert_eq!(array_out(r), vec![Some(1599566400), Some(1599566400), Some(1599523200), Some(-1)]);
}

#[test]
fn formatted_parse_paths() {
    // with an offset
    assert_eq!(
        parse_formatted_nanos("2023-01-14 01:01:30+05:30", "%Y-%m-%d %H:%M:%S%#z"),
        Some(1673638290_000_000_000)
    );
    // date and time without offset, read as UTC
    assert_eq!(
        parse_formatted_nanos("2023-01-13 19:31:30.25", "%Y-%m-%d %H:%M:%S%.f"),
        Some(1673638290_250_000_000)
    );
    // date alone, midnight UTC
    assert_eq!(parse_formatted_nanos("1970-01-02", "%Y-%m-%d"), Some(86_400_000_000_000));
    assert_eq!(parse_formatted_nanos("1969-12-31", "%Y-%m-%d"), Some(-86_400_000_000_000));
    // no match
    assert_eq!(parse_formatted_nanos("2023", "%Y-%m-%d"), None);
    // outside the nanosecond range
    assert_eq!(parse_formatted_nanos("3000-01-01", "%Y-%m-%d"), None);
}

#[test]
fn format_loop_reports_failure_or_null() {
    let args = vec![text_scalar("ignored"), text_scalar("%Y"), text_scalar("%Y-%m-%d")];
    assert_eq!(seconds_with_formats("1970-01-02", &args, 0), Some(Some(86400)));
    assert_eq!(seconds_with_formats("yesterday", &args, 0), None);
    let nulls = vec![text_scalar("ignored"), ColumnarValue::Scalar(ColumnData::Utf8(vec![None]))];
    assert_eq!(seconds_with_formats("yesterday", &nulls, 0), Some(None));
}

#[test]
fn text_rows_and_columns() {
    let vals = vec![Some("1970-01-01T00:00:01Z".to_string()), None];
    let args = vec![ColumnarValue::Array(ColumnData::Utf8(vals.clone()))];
    assert_eq!(text_row(&vals, &args, 0), Some(Some(1)));
    assert_eq!(text_row(&vals, &args, 1), Some(None));
    assert_eq!(text_column_seconds(&vals, &args).unwrap(), vec![Some(1), None]);
}

#[test]
fn cast_kernels() {
    assert_eq!(floor_div(7, 2), 3);
    assert_eq!(floor_div(-7, 2), -4);
    assert_eq!(floor_div(-8, 2), -4);
    assert_eq!(floor_div(i64::MIN, 1_000_000_000), -9223372037);
    assert_eq!(date32_seconds(i32::MIN), -185542587187200);
    assert_eq!(date64_seconds(-1), -1);
    assert_eq!(timestamp_seconds(TimeUnit::Microsecond, 2_500_000), 2);
    let col = ColumnData::Date32(vec![Some(1), None]);
    assert_eq!(cast_column_seconds(&col), vec![Some(86400), None]);
}

#[test]
fn descriptor() {
    let f = ToUnixtimeFunc::new();
    assert_eq!(f.name(), "to_unixtime");
    assert_eq!(FUNCTION_NAME, "to_unixtime");
    let sig = f.signature();
    assert_eq!(sig.type_signature, TypeSignature::VariadicAny);
    assert_eq!(sig.volatility, Volatility::Immutable);
    assert!(matches!(f.return_type(&vec![DataType::Utf8]), Ok(DataType::Int64)));
    let d = ToUnixtimeFunc::default();
    assert_eq!(*d.signature(), *sig);
}

#[test]
fn data_type_of_columns() {
    let c = ColumnarValue::Array(ColumnData::Timestamp(TimeUnit::Second, Some("UTC".to_string()), vec![]));
    assert!(matches!(c.data_type(), DataType::Timestamp(TimeUnit::Second, Some(ref tz)) if tz == "UTC"));
    assert!(matches!(text_scalar("a").data_type(), DataType::Utf8));
}


#[test]
fn readings_combine_in_order() {
    assert_eq!(nanos_from_readings(Some((1, 2)), Some((5, 7)), Some(3)), Some(1_000_000_002));
    assert_eq!(nanos_from_readings(None, Some((5, 7)), Some(3)), Some(5_000_000_007));
    assert_eq!(nanos_from_readings(None, None, Some(719_164)), Some(86_400_000_000_000));
    assert_eq!(nanos_from_readings(None, None, Some(719_162)), Some(-86_400_000_000_000));
    assert_eq!(nanos_from_readings(None, None, None), None);
}

#[test]
fn nanos_fit_or_not() {
    assert_eq!(nanos_of_parts(-1, 500_000_000), Some(-500_000_000));
    assert_eq!(nanos_of_parts(9_223_372_036, 854_775_807), Some(i64::MAX));
    assert_eq!(nanos_of_parts(9_223_372_036, 854_775_808), None);
    assert_eq!(nanos_of_parts(-9_223_372_037, 145_224_192), Some(i64::MIN));
    assert_eq!(nanos_of_parts(-9_223_372_037, 145_224_191), None);
}
