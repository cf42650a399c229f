//! Element types, values, comparison kinds and errors, with their meaning.
use crate::number::{f32_value, f64_value, num_eq, num_lt, Num};
use crate::text::bytes_lt;
use vstd::prelude::*;
use vstd::utf8::encode_utf8;

verus! {

/// The element type of a series.
#[derive(Clone, Copy, Debug, PartialEq, Eq, Structural)]
pub enum DataType {
    UInt8,
    UInt16,
    UInt32,
    UInt64,
    Int8,
    Int16,
    Int32,
    Int64,
    Float32,
    Float64,
    Utf8,
    Boolean,
}

/// One present element, or a typed scalar. Floating-point values are held as their
/// IEEE-754 bit patterns (`f32::to_bits`, `f64::to_bits`).
#[derive(Clone, Debug, PartialEq)]
pub enum AnyValue {
    UInt8(u8),
    UInt16(u16),
    UInt32(u32),
    UInt64(u64),
    Int8(i8),
    Int16(i16),
    Int32(i32),
    Int64(i64),
    Float32(u32),
    Float64(u64),
    Utf8(String),
    Boolean(bool),
}

/// The six relational operators.
#[derive(Clone, Copy, Debug, PartialEq, Eq, Structural)]
pub enum CmpKind {
    Equal,
    NotEqual,
    GreaterThan,
    GreaterOrEqual,
    LessThan,
    LessOrEqual,
}

/// Why a comparison was refused.
#[derive(Clone, Copy, Debug, PartialEq, Eq, Structural)]
pub enum ComparisonError {
    /// The operand types cannot be compared with each other.
    TypeMismatch,
    /// Two series operands differ in length.
    LengthMismatch,
    /// A value could not be brought to a common representation without loss.
    Overflow,
}

pub open spec fn dtype_of(v: AnyValue) -> DataType {
    match v {
        AnyValue::UInt8(_) => DataType::UInt8,
        AnyValue::UInt16(_) => DataType::UInt16,
        AnyValue::UInt32(_) => DataType::UInt32,
        AnyValue::UInt64(_) => DataType::UInt64,
        AnyValue::Int8(_) => DataType::Int8,
        AnyValue::Int16(_) => DataType::Int16,
        AnyValue::Int32(_) => DataType::Int32,
        AnyValue::Int64(_) => DataType::Int64,
        AnyValue::Float32(_) => DataType::Float32,
        AnyValue::Float64(_) => DataType::Float64,
        AnyValue::Utf8(_) => DataType::Utf8,
        AnyValue::Boolean(_) => DataType::Boolean,
    }
}

pub open spec fn is_numeric(t: DataType) -> bool {
    !(t is Utf8) && !(t is Boolean)
}

/// Any two numeric types compare with each other, and text with text; booleans with nothing.
pub open spec fn comparable(a: DataType, b: DataType) -> bool {
    (is_numeric(a) && is_numeric(b)) || (a is Utf8 && b is Utf8)
}

/// The exact value of a numeric element.
pub open spec fn num_value(v: AnyValue) -> Num {
    match v {
        AnyValue::UInt8(x) => Num::Finite(x as int, 0),
        AnyValue::UInt16(x) => Num::Finite(x as int, 0),
        AnyValue::UInt32(x) => Num::Finite(x as int, 0),
        AnyValue::UInt64(x) => Num::Finite(x as int, 0),
        AnyValue::Int8(x) => Num::Finite(x as int, 0),
        AnyValue::Int16(x) => Num::Finite(x as int, 0),
        AnyValue::Int32(x) => Num::Finite(x as int, 0),
        AnyValue::Int64(x) => Num::Finite(x as int, 0),
        AnyValue::Float32(b) => f32_value(b),
        AnyValue::Float64(b) => f64_value(b),
        _ => Num::NaN,
    }
}

/// The UTF-8 bytes of a text element.
pub open spec fn text_bytes(v: AnyValue) -> Seq<u8> {
    match v {
        AnyValue::Utf8(s) => encode_utf8(s@),
        _ => Seq::empty(),
    }
}

/// The operator applied to an ordering given as its three outcomes.
pub open spec fn kind_holds(kind: CmpKind, lt: bool, eq: bool, gt: bool) -> bool {
    match kind {
        CmpKind::Equal => eq,
        CmpKind::NotEqual => !eq,
        CmpKind::GreaterThan => gt,
        CmpKind::GreaterOrEqual => gt || eq,
        CmpKind::LessThan => lt,
        CmpKind::LessOrEqual => lt || eq,
    }
}

/// The operator on two numbers: by exact value, and false on NaN but for `NotEqual`.
pub open spec fn num_holds(kind: CmpKind, x: Num, y: Num) -> bool {
    kind_holds(kind, num_lt(x, y), num_eq(x, y), num_lt(y, x))
}

/// The operator on two byte strings in lexicographic order.
pub open spec fn text_holds(kind: CmpKind, x: Seq<u8>, y: Seq<u8>) -> bool {
    kind_holds(kind, bytes_lt(x, y), x == y, bytes_lt(y, x))
}

/// The operator on two present values of comparable types.
pub open spec fn holds(kind: CmpKind, a: AnyValue, b: AnyValue) -> bool {
    if dtype_of(a) is Utf8 {
        text_holds(kind, text_bytes(a), text_bytes(b))
    } else {
        num_holds(kind, num_value(a), num_value(b))
    }
}

/// One element of a mask: absent when either side is absent.
pub open spec fn mask_elem(kind: CmpKind, a: Option<AnyValue>, b: Option<AnyValue>) -> Option<
    AnyValue,
> {
    match (a, b) {
        (Some(x), Some(y)) => Some(AnyValue::Boolean(holds(kind, x, y))),
        _ => None,
    }
}

pub fn value_type(v: &AnyValue) -> (r: DataType)
    ensures
        r == dtype_of(*v),
{
    match v {
        AnyValue::UInt8(_) => DataType::UInt8,
        AnyValue::UInt16(_) => DataType::UInt16,
        AnyValue::UInt32(_) => DataType::UInt32,
        AnyValue::UInt64(_) => DataType::UInt64,
        AnyValue::Int8(_) => DataType::Int8,
        AnyValue::Int16(_) => DataType::Int16,
        AnyValue::Int32(_) => DataType::Int32,
        AnyValue::Int64(_) => DataType::Int64,
        AnyValue::Float32(_) => DataType::Float32,
        AnyValue::Float64(_) => DataType::Float64,
        AnyValue::Utf8(_) => DataType::Utf8,
        AnyValue::Boolean(_) => DataType::Boolean,
    }
}

pub fn are_comparable(a: DataType, b: DataType) -> (r: bool)
    ensures
        r == comparable(a, b),
{
    let a_num = !matches!(a, DataType::Utf8) && !matches!(a, DataType::Boolean);
    let b_num = !matches!(b, DataType::Utf8) && !matches!(b, DataType::Boolean);
    (a_num && b_num) || (matches!(a, DataType::Utf8) && matches!(b, DataType::Utf8))
}

} // verus!
