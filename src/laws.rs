//! Properties that every comparison satisfies.
use crate::number::{is_nan, num_eq, num_lt, Num};
use crate::series::{scalar_outcome, series_outcome, Series};
use crate::text::lemma_bytes_trichotomy;
use crate::types::{
    comparable, dtype_of, holds, is_numeric, num_value, AnyValue, CmpKind, ComparisonError,
};
use vstd::prelude::*;

verus! {

/// Two comparisons of the same series give the same error, or masks with the same
/// type, name and elements.
pub proof fn law_compare_deterministic(
    kind: CmpKind,
    left: Series,
    right: Series,
    r1: Result<Series, ComparisonError>,
    r2: Result<Series, ComparisonError>,
)
    requires
        series_outcome(kind, left, right, r1),
        series_outcome(kind, left, right, r2),
    ensures
        r1 is Ok == r2 is Ok,
        r1 is Err ==> r1 == r2,
        r1 is Ok ==> r1->Ok_0@ == r2->Ok_0@ && r1->Ok_0.spec_dtype() == r2->Ok_0.spec_dtype()
            && r1->Ok_0.spec_name() == r2->Ok_0.spec_name(),
{
}

/// Two comparisons of the same series with the same scalar give the same result.
pub proof fn law_compare_scalar_deterministic(
    kind: CmpKind,
    left: Series,
    s: AnyValue,
    r1: Result<Series, ComparisonError>,
    r2: Result<Series, ComparisonError>,
)
    requires
        scalar_outcome(kind, left, s, r1),
        scalar_outcome(kind, left, s, r2),
    ensures
        r1 is Ok == r2 is Ok,
        r1 is Err ==> r1 == r2,
        r1 is Ok ==> r1->Ok_0@ == r2->Ok_0@ && r1->Ok_0.spec_dtype() == r2->Ok_0.spec_dtype()
            && r1->Ok_0.spec_name() == r2->Ok_0.spec_name(),
{
}

/// A mask of two series is as long as each of them.
pub proof fn law_compare_keeps_length(
    kind: CmpKind,
    left: Series,
    right: Series,
    r: Result<Series, ComparisonError>,
)
    requires
        series_outcome(kind, left, right, r),
        r is Ok,
    ensures
        r->Ok_0@.len() == left@.len(),
        r->Ok_0@.len() == right@.len(),
{
}

/// A mask of a series and a scalar is as long as the series.
pub proof fn law_compare_scalar_keeps_length(
    kind: CmpKind,
    left: Series,
    s: AnyValue,
    r: Result<Series, ComparisonError>,
)
    requires
        scalar_outcome(kind, left, s, r),
        r is Ok,
    ensures
        r->Ok_0@.len() == left@.len(),
{
}

/// Where either series holds no value, the mask holds none.
pub proof fn law_compare_propagates_nulls(
    kind: CmpKind,
    left: Series,
    right: Series,
    r: Result<Series, ComparisonError>,
    i: int,
)
    requires
        series_outcome(kind, left, right, r),
        r is Ok,
        0 <= i < left@.len(),
        left@[i] is None || right@[i] is None,
    ensures
        r->Ok_0@[i] is None,
{
}

/// Where the series holds no value, the mask against a scalar holds none.
pub proof fn law_compare_scalar_propagates_nulls(
    kind: CmpKind,
    left: Series,
    s: AnyValue,
    r: Result<Series, ComparisonError>,
    i: int,
)
    requires
        scalar_outcome(kind, left, s, r),
        r is Ok,
        0 <= i < left@.len(),
        left@[i] is None,
    ensures
        r->Ok_0@[i] is None,
{
}

proof fn lemma_num_trichotomy(x: Num, y: Num)
    requires
        !is_nan(x),
        !is_nan(y),
    ensures
        num_lt(x, y) || num_eq(x, y) || num_lt(y, x),
        !(num_lt(x, y) && num_eq(x, y)),
        !(num_lt(y, x) && num_eq(x, y)),
        !(num_lt(x, y) && num_lt(y, x)),
{
}

/// For two present, comparable values neither of which is NaN, exactly one of
/// less, equal and greater holds, and the other operators follow from those three.
pub proof fn law_complementary(a: AnyValue, b: AnyValue)
    requires
        comparable(dtype_of(a), dtype_of(b)),
        is_numeric(dtype_of(a)) ==> !is_nan(num_value(a)) && !is_nan(num_value(b)),
    ensures
        holds(CmpKind::LessThan, a, b) || holds(CmpKind::Equal, a, b) || holds(CmpKind::GreaterThan, a, b),
        !(holds(CmpKind::LessThan, a, b) && holds(CmpKind::Equal, a, b)),
        !(holds(CmpKind::GreaterThan, a, b) && holds(CmpKind::Equal, a, b)),
        !(holds(CmpKind::LessThan, a, b) && holds(CmpKind::GreaterThan, a, b)),
        holds(CmpKind::GreaterOrEqual, a, b) == (holds(CmpKind::GreaterThan, a, b) || holds(CmpKind::Equal, a, b)),
        holds(CmpKind::LessOrEqual, a, b) == (holds(CmpKind::LessThan, a, b) || holds(CmpKind::Equal, a, b)),
        holds(CmpKind::NotEqual, a, b) == !holds(CmpKind::Equal, a, b),
{
    if dtype_of(a) is Utf8 {
        lemma_bytes_trichotomy(crate::types::text_bytes(a), crate::types::text_bytes(b));
    } else {
        lemma_num_trichotomy(num_value(a), num_value(b));
    }
}

/// NaN equals nothing, is unequal to everything, and is neither greater nor less
/// than anything, on either side.
pub proof fn law_nan(a: AnyValue, b: AnyValue)
    requires
        is_numeric(dtype_of(a)),
        is_numeric(dtype_of(b)),
        is_nan(num_value(a)) || is_nan(num_value(b)),
    ensures
        !holds(CmpKind::Equal, a, b),
        holds(CmpKind::NotEqual, a, b),
        !holds(CmpKind::GreaterThan, a, b),
        !holds(CmpKind::GreaterOrEqual, a, b),
        !holds(CmpKind::LessThan, a, b),
        !holds(CmpKind::LessOrEqual, a, b),
{
}

} // verus!
