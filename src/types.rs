use vstd::prelude::*;

verus! {

/// Resolution of a timestamp column.
#[derive(Clone, Copy, Debug, PartialEq, Eq, Structural)]
pub enum TimeUnit {
    Second,
    Millisecond,
    Microsecond,
    Nanosecond,
}

/// Physical type tag of a column.
#[derive(Clone, Debug)]
pub enum DataType {
    Null,
    Int32,
    Int64,
    Date32,
    Date64,
    /// Unit and optional timezone tag.
    Timestamp(TimeUnit, Option<String>),
    Utf8,
    /// Any other physical type, by its name.
    Other(String),
}

/// The elements of a column, all of one physical type.
#[derive(Clone, Debug)]
pub enum ColumnData {
    /// A column of the null type with this many elements.
    Null(usize),
    Int32(Vec<Option<i32>>),
    Int64(Vec<Option<i64>>),
    /// Days since the epoch.
    Date32(Vec<Option<i32>>),
    /// Milliseconds since the epoch.
    Date64(Vec<Option<i64>>),
    /// Ticks of the unit since the epoch, with the timezone tag.
    Timestamp(TimeUnit, Option<String>, Vec<Option<i64>>),
    Utf8(Vec<Option<String>>),
    /// A column of a type this library does not read, by the type's name.
    Other(String),
}

/// A function argument or result: one scalar or an array of values.
#[derive(Clone, Debug)]
pub enum ColumnarValue {
    Array(ColumnData),
    Scalar(ColumnData),
}

/// Why a conversion failed.
#[derive(Clone, Debug)]
pub enum ConversionError {
    /// The function was called with no argument.
    Arity,
    /// The argument at this position (1 or more) is not text.
    ArgumentType { position: usize },
    /// The first argument has a type that cannot be converted.
    UnsupportedType { name: String },
    /// This text matched none of the formats (or the default layout).
    Parse { value: String },
    /// A representation change failed in the underlying cast.
    Cast { message: String },
}

impl ColumnarValue {
    pub open spec fn spec_data(self) -> ColumnData {
        match self {
            ColumnarValue::Array(d) => d,
            ColumnarValue::Scalar(d) => d,
        }
    }

    pub open spec fn is_text(self) -> bool {
        self.spec_data() is Utf8
    }

    /// The column's elements.
    pub fn data(&self) -> (r: &ColumnData)
        ensures
            *r == self.spec_data(),
    {
        match self {
            ColumnarValue::Array(d) => d,
            ColumnarValue::Scalar(d) => d,
        }
    }

    /// The column's physical type.
    pub fn data_type(&self) -> (r: DataType)
        ensures
            r == self.spec_data().spec_data_type(),
    {
        self.data().data_type()
    }
}

impl ColumnData {
    pub open spec fn spec_data_type(self) -> DataType {
        match self {
            ColumnData::Null(_) => DataType::Null,
            ColumnData::Int32(_) => DataType::Int32,
            ColumnData::Int64(_) => DataType::Int64,
            ColumnData::Date32(_) => DataType::Date32,
            ColumnData::Date64(_) => DataType::Date64,
            ColumnData::Timestamp(u, tz, _) => DataType::Timestamp(u, tz),
            ColumnData::Utf8(_) => DataType::Utf8,
            ColumnData::Other(name) => DataType::Other(name),
        }
    }

    /// The column's physical type.
    pub fn data_type(&self) -> (r: DataType)
        ensures
            r == self.spec_data_type(),
    {
        match self {
            ColumnData::Null(_) => DataType::Null,
            ColumnData::Int32(_) => DataType::Int32,
            ColumnData::Int64(_) => DataType::Int64,
            ColumnData::Date32(_) => DataType::Date32,
            ColumnData::Date64(_) => DataType::Date64,
            ColumnData::Timestamp(u, tz, _) => DataType::Timestamp(*u, tz.clone()),
            ColumnData::Utf8(_) => DataType::Utf8,
            ColumnData::Other(name) => DataType::Other(name.clone()),
        }
    }
}

} // verus!
