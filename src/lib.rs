//! `to_unixtime`: converts integer, date, timestamp and textual timestamp
//! columns into whole seconds since the Unix epoch.

pub mod cast;
pub mod column;
pub mod func;
pub mod laws;
pub mod parse;
pub mod types;

pub use func::{Signature, ToUnixtimeFunc, TypeSignature, Volatility, FUNCTION_NAME};
pub use types::{ColumnData, ColumnarValue, ConversionError, DataType, TimeUnit};
