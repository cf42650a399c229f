//! The relational operators on single values.
use crate::number::{
    cmp_numbers, number_from_f32_bits, number_from_f64_bits, number_from_int, Number,
};
use crate::text::cmp_bytes;
use crate::types::{
    comparable, dtype_of, holds, is_numeric, kind_holds, num_value, AnyValue, CmpKind,
};
use std::cmp::Ordering;
use vstd::prelude::*;

verus! {

/// The exact value of a numeric element, in executable form.
fn to_number(v: &AnyValue) -> (r: Number)
    requires
        is_numeric(dtype_of(*v)),
    ensures
        r.model() == num_value(*v),
{
    match v {
        AnyValue::UInt8(x) => number_from_int(*x as i128),
        AnyValue::UInt16(x) => number_from_int(*x as i128),
        AnyValue::UInt32(x) => number_from_int(*x as i128),
        AnyValue::UInt64(x) => number_from_int(*x as i128),
        AnyValue::Int8(x) => number_from_int(*x as i128),
        AnyValue::Int16(x) => number_from_int(*x as i128),
        AnyValue::Int32(x) => number_from_int(*x as i128),
        AnyValue::Int64(x) => number_from_int(*x as i128),
        AnyValue::Float32(b) => number_from_f32_bits(*b),
        AnyValue::Float64(b) => number_from_f64_bits(*b),
        AnyValue::Utf8(_) => Number::NaN,
        AnyValue::Boolean(_) => Number::NaN,
    }
}

/// The operator applied to an outcome of ordering; `None` stands for unordered.
fn apply_kind(kind: CmpKind, o: Option<Ordering>) -> (r: bool)
    ensures
        r == kind_holds(
            kind,
            o == Some(Ordering::Less),
            o == Some(Ordering::Equal),
            o == Some(Ordering::Greater),
        ),
{
    let (lt, eq, gt) = match o {
        Some(Ordering::Less) => (true, false, false),
        Some(Ordering::Equal) => (false, true, false),
        Some(Ordering::Greater) => (false, false, true),
        None => (false, false, false),
    };
    match kind {
        CmpKind::Equal => eq,
        CmpKind::NotEqual => !eq,
        CmpKind::GreaterThan => gt,
        CmpKind::GreaterOrEqual => gt || eq,
        CmpKind::LessThan => lt,
        CmpKind::LessOrEqual => lt || eq,
    }
}

/// Applies `kind` to two present values of comparable types.
pub fn compare_values(kind: CmpKind, a: &AnyValue, b: &AnyValue) -> (r: bool)
    requires
        comparable(dtype_of(*a), dtype_of(*b)),
    ensures
        r == holds(kind, *a, *b),
{
    match (a, b) {
        (AnyValue::Utf8(x), AnyValue::Utf8(y)) => {
            let o = cmp_bytes(x.as_str().as_bytes(), y.as_str().as_bytes());
            apply_kind(kind, Some(o))
        },
        _ => {
            let x = to_number(a);
            let y = to_number(b);
            let o = cmp_numbers(&x, &y);
            apply_kind(kind, o)
        },
    }
}

} // verus!
