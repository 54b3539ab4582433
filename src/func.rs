use vstd::prelude::*;

use crate::column::{cast_column, cast_column_seconds, is_cast_type};
use crate::parse::{text_row, text_row_seconds};
use crate::types::{ColumnData, ColumnarValue, ConversionError, DataType};

verus! {

/// How a function's result may change between calls on equal arguments.
#[derive(Clone, Copy, Debug, PartialEq, Eq, Structural)]
pub enum Volatility {
    Immutable,
    Stable,
    Volatile,
}

/// The argument lists a function accepts.
#[derive(Clone, Copy, Debug, PartialEq, Eq, Structural)]
pub enum TypeSignature {
    /// One or more arguments of any type.
    VariadicAny,
}

/// What a function accepts and how it behaves between calls.
#[derive(Clone, Copy, Debug, PartialEq, Eq, Structural)]
pub struct Signature {
    pub type_signature: TypeSignature,
    pub volatility: Volatility,
}

/// Every argument after the first is text.
pub open spec fn formats_are_text(args: Seq<ColumnarValue>) -> bool {
    forall|k: int| 1 <= k < args.len() ==> #[trigger] args[k].is_text()
}

/// `p` is the first position after the first whose argument is not text.
pub open spec fn first_non_text(args: Seq<ColumnarValue>, p: int) -> bool {
    &&& 1 <= p < args.len()
    &&& !args[p].is_text()
    &&& forall|k: int| 1 <= k < p ==> #[trigger] args[k].is_text()
}

/// `v` is a column of 64-bit integers `out`, scalar exactly when `input` is.
pub open spec fn int64_column_like(v: ColumnarValue, input: ColumnarValue, out: Seq<Option<i64>>) -> bool {
    &&& (v is Scalar <==> input is Scalar)
    &&& v.spec_data() matches ColumnData::Int64(w) && w@ == out
}

/// The text column `vals`, converted with the formats of `args`, row by row.
pub open spec fn text_column(vals: Seq<Option<String>>, args: Seq<ColumnarValue>) -> Seq<Option<i64>> {
    Seq::new(vals.len(), |i: int| text_row_seconds(vals, args, i)->Some_0)
}

/// Every row of the text column `vals` converts.
pub open spec fn text_column_converts(vals: Seq<Option<String>>, args: Seq<ColumnarValue>) -> bool {
    forall|i: int| 0 <= i < vals.len() ==> #[trigger] text_row_seconds(vals, args, i) is Some
}

/// Row `i` is the first row of `vals` that fails to convert.
pub open spec fn first_failing_row(vals: Seq<Option<String>>, args: Seq<ColumnarValue>, i: int) -> bool {
    &&& 0 <= i < vals.len()
    &&& text_row_seconds(vals, args, i) is None
    &&& forall|j: int| 0 <= j < i ==> #[trigger] text_row_seconds(vals, args, j) is Some
}

/// The error for a text column: a parse failure naming the text of the first row that fails.
pub open spec fn is_parse_failure(e: ConversionError, vals: Seq<Option<String>>, args: Seq<ColumnarValue>) -> bool {
    exists|i: int|
        #![trigger vals[i]]
        first_failing_row(vals, args, i) && vals[i] is Some && (e matches ConversionError::Parse {
            value,
        } && value@ == vals[i]->Some_0@)
}

/// Checks that every argument after the first is text.
pub fn validate_formats(args: &Vec<ColumnarValue>) -> (r: Result<(), ConversionError>)
    ensures
        r is Ok <==> formats_are_text(args@),
        r matches Err(e) ==> e matches ConversionError::ArgumentType { position } && first_non_text(
            args@,
            position as int,
        ),
{
    let mut k: usize = 1;
    while k < args.len()
        invariant
            1 <= k,
            forall|j: int| 1 <= j < k && j < args@.len() ==> #[trigger] args@[j].is_text(),
        decreases args@.len() - k,
    {
        match args[k].data() {
            ColumnData::Utf8(_) => {},
            _ => {
                assert(!args@[k as int].is_text());
                return Err(ConversionError::ArgumentType { position: k });
            },
        }
        k += 1;
    }
    Ok(())
}

/// Converts a text column row by row; the first row that fails to parse fails the whole column.
pub fn text_column_seconds(vals: &Vec<Option<String>>, args: &Vec<ColumnarValue>) -> (r: Result<
    Vec<Option<i64>>,
    ConversionError,
>)
    ensures
        r is Ok <==> text_column_converts(vals@, args@),
        r matches Ok(out) ==> out@ == text_column(vals@, args@),
        r matches Err(e) ==> is_parse_failure(e, vals@, args@),
{
    let mut out: Vec<Option<i64>> = Vec::new();
    let mut i: usize = 0;
    while i < vals.len()
        invariant
            i <= vals@.len(),
            out@.len() == i,
            forall|j: int| 0 <= j < i ==> #[trigger] text_row_seconds(vals@, args@, j) is Some,
            forall|j: int| 0 <= j < i ==> out@[j] == text_row_seconds(vals@, args@, j)->Some_0,
        decreases vals@.len() - i,
    {
        match text_row(vals, args, i) {
            Some(e) => {
                out.push(e);
            },
            None => {
                let value = match &vals[i] {
                    Some(s) => s.clone(),
                    None => String::new(),
                };
                let e = ConversionError::Parse { value };
                assert(first_failing_row(vals@, args@, i as int));
                assert(!text_column_converts(vals@, args@));
                return Err(e);
            },
        }
        i += 1;
    }
    assert(out@ =~= text_column(vals@, args@));
    Ok(out)
}

/// Name under which the engine knows the function.
pub const FUNCTION_NAME: &'static str = "to_unixtime";

/// The `to_unixtime` function: seconds since the Unix epoch of a column.
#[derive(Debug)]
pub struct ToUnixtimeFunc {
    signature: Signature,
}

impl ToUnixtimeFunc {
    #[verifier::type_invariant]
    spec fn inv(self) -> bool {
        self.signature == (Signature {
            type_signature: TypeSignature::VariadicAny,
            volatility: Volatility::Immutable,
        })
    }

    /// The function, accepting one or more arguments of any type, immutable.
    pub fn new() -> (r: Self)
        ensures
            r.spec_signature() == (Signature {
                type_signature: TypeSignature::VariadicAny,
                volatility: Volatility::Immutable,
            }),
    {
        ToUnixtimeFunc {
            signature: Signature {
                type_signature: TypeSignature::VariadicAny,
                volatility: Volatility::Immutable,
            },
        }
    }

    /// The function's name.
    pub fn name(&self) -> (r: &'static str)
        ensures
            r@ == FUNCTION_NAME@,
    {
        FUNCTION_NAME
    }

    /// What the function accepts: any argument list of one or more, with no
    /// change between calls on equal arguments.
    pub fn signature(&self) -> (r: &Signature)
        ensures
            *r == self.spec_signature(),
            *r == (Signature {
                type_signature: TypeSignature::VariadicAny,
                volatility: Volatility::Immutable,
            }),
    {
        proof {
            use_type_invariant(self);
        }
        &self.signature
    }

    /// The signature the function was made with.
    pub closed spec fn spec_signature(&self) -> Signature {
        self.signature
    }

    /// The result type, 64-bit integers whatever the argument types.
    pub fn return_type(&self, _arg_types: &Vec<DataType>) -> (r: Result<DataType, ConversionError>)
        ensures
            r matches Ok(DataType::Int64),
    {
        Ok(DataType::Int64)
    }

    /// Converts the first argument to whole seconds since the Unix epoch.
    ///
    /// Integers are kept; dates become midnight UTC; timestamps of any unit and
    /// timezone tag are truncated toward the earlier second; text is read with
    /// the formats given as the further arguments, tried in order, or as
    /// RFC 3339 when none is given. Nulls stay null. The result is scalar
    /// exactly when the first argument is.
    pub fn invoke_with_args(&self, args: &Vec<ColumnarValue>) -> (r: Result<ColumnarValue, ConversionError>)
        ensures
            args@.len() == 0 <==> r matches Err(ConversionError::Arity),
            args@.len() > 0 && !formats_are_text(args@) ==> (r matches Err(
                ConversionError::ArgumentType { position },
            ) && first_non_text(args@, position as int)),
            args@.len() > 0 && formats_are_text(args@) ==> match args@[0].spec_data() {
                ColumnData::Other(name) => r matches Err(ConversionError::UnsupportedType { name: n })
                    && n@ == name@,
                ColumnData::Utf8(vals) => {
                    &&& (r is Ok <==> text_column_converts(vals@, args@))
                    &&& r matches Ok(v) ==> int64_column_like(v, args@[0], text_column(vals@, args@))
                    &&& r matches Err(e) ==> is_parse_failure(e, vals@, args@)
                },
                d => r matches Ok(v) && int64_column_like(v, args@[0], cast_column(d)),
            },
    {
        if args.len() == 0 {
            return Err(ConversionError::Arity);
        }
        if args.len() > 1 {
            validate_formats(args)?;
        }
        let first = &args[0];
        let out = match first.data() {
            ColumnData::Other(name) => {
                return Err(ConversionError::UnsupportedType { name: name.clone() });
            },
            ColumnData::Utf8(vals) => text_column_seconds(vals, args)?,
            d => cast_column_seconds(d),
        };
        match first {
            ColumnarValue::Scalar(_) => Ok(ColumnarValue::Scalar(ColumnData::Int64(out))),
            ColumnarValue::Array(_) => Ok(ColumnarValue::Array(ColumnData::Int64(out))),
        }
    }
}

impl Default for ToUnixtimeFunc {
    fn default() -> (r: Self)
        ensures
            r.spec_signature() == (Signature {
                type_signature: TypeSignature::VariadicAny,
                volatility: Volatility::Immutable,
            }),
    {
        Self::new()
    }
}

} // verus!
