//! Typed series and the element-wise comparison of a series with a series or a scalar.
use crate::compare::compare_values;
use crate::types::{
    are_comparable, comparable, dtype_of, mask_elem, value_type, AnyValue, CmpKind,
    ComparisonError, DataType,
};
use vstd::prelude::*;

verus! {

/// Every present element of `values` has type `dtype`.
pub open spec fn conforms(dtype: DataType, values: Seq<Option<AnyValue>>) -> bool {
    forall|i: int| 0 <= i < values.len() && (#[trigger] values[i]) is Some ==> dtype_of(values[i]->Some_0) == dtype
}

/// The mask of `kind` applied position by position to two sequences of equal length.
pub open spec fn mask_of(kind: CmpKind, left: Seq<Option<AnyValue>>, right: Seq<Option<AnyValue>>) -> Seq<Option<AnyValue>> {
    Seq::new(left.len(), |i: int| mask_elem(kind, left[i], right[i]))
}

/// The mask of `kind` applied to each element of `left` and the scalar `s`.
pub open spec fn scalar_mask_of(kind: CmpKind, left: Seq<Option<AnyValue>>, s: AnyValue) -> Seq<Option<AnyValue>> {
    Seq::new(left.len(), |i: int| mask_elem(kind, left[i], Some(s)))
}

/// A named, typed, ordered sequence of values, each present or absent.
pub struct Series {
    name: String,
    dtype: DataType,
    values: Vec<Option<AnyValue>>,
}

impl View for Series {
    type V = Seq<Option<AnyValue>>;

    closed spec fn view(&self) -> Seq<Option<AnyValue>> {
        self.values@
    }
}

/// What a comparison of two series owes: the error the operands call for, else
/// a fresh boolean mask under the left operand's name.
pub open spec fn series_outcome(
    kind: CmpKind,
    left: Series,
    right: Series,
    r: Result<Series, ComparisonError>,
) -> bool {
    if !comparable(left.spec_dtype(), right.spec_dtype()) {
        r == Err::<Series, ComparisonError>(ComparisonError::TypeMismatch)
    } else if left@.len() != right@.len() {
        r == Err::<Series, ComparisonError>(ComparisonError::LengthMismatch)
    } else {
        &&& r is Ok
        &&& r->Ok_0.spec_dtype() == DataType::Boolean
        &&& r->Ok_0.spec_name() == left.spec_name()
        &&& r->Ok_0@ == mask_of(kind, left@, right@)
    }
}

/// What a comparison of a series with a scalar owes.
pub open spec fn scalar_outcome(
    kind: CmpKind,
    left: Series,
    s: AnyValue,
    r: Result<Series, ComparisonError>,
) -> bool {
    if !comparable(left.spec_dtype(), dtype_of(s)) {
        r == Err::<Series, ComparisonError>(ComparisonError::TypeMismatch)
    } else {
        &&& r is Ok
        &&& r->Ok_0.spec_dtype() == DataType::Boolean
        &&& r->Ok_0.spec_name() == left.spec_name()
        &&& r->Ok_0@ == scalar_mask_of(kind, left@, s)
    }
}

impl Series {
    #[verifier::type_invariant]
    spec fn well_typed(&self) -> bool {
        conforms(self.dtype, self.values@)
    }

    pub closed spec fn spec_dtype(&self) -> DataType {
        self.dtype
    }

    pub closed spec fn spec_name(&self) -> Seq<char> {
        self.name@
    }

    /// A series of type `dtype`; `None` when a present value has another type.
    pub fn new(name: String, dtype: DataType, values: Vec<Option<AnyValue>>) -> (r: Option<Series>)
        ensures
            r is Some == conforms(dtype, values@),
            r is Some ==> r->Some_0@ == values@ && r->Some_0.spec_dtype() == dtype
                && r->Some_0.spec_name() == name@,
    {
        let mut i: usize = 0;
        while i < values.len()
            invariant
                i <= values@.len(),
                forall|j: int| 0 <= j < i && (#[trigger] values@[j]) is Some ==> dtype_of(values@[j]->Some_0) == dtype,
            decreases values@.len() - i,
        {
            match &values[i] {
                Some(v) => {
                    if value_type(v) != dtype {
                        return None;
                    }
                },
                None => {},
            }
            i = i + 1;
        }
        Some(Series { name, dtype, values })
    }

    pub fn dtype(&self) -> (r: DataType)
        ensures
            r == self.spec_dtype(),
    {
        self.dtype
    }

    pub fn name(&self) -> (r: &String)
        ensures
            r@ == self.spec_name(),
    {
        &self.name
    }

    pub fn len(&self) -> (r: usize)
        ensures
            r == self@.len(),
    {
        self.values.len()
    }

    pub fn get(&self, i: usize) -> (r: &Option<AnyValue>)
        requires
            i < self@.len(),
        ensures
            *r == self@[i as int],
    {
        &self.values[i]
    }

    /// Applies `kind` position by position to this series and `rhs`.
    pub fn compare(&self, kind: CmpKind, rhs: &Series) -> (r: Result<Series, ComparisonError>)
        ensures
            series_outcome(kind, *self, *rhs, r),
    {
        proof {
            use_type_invariant(self);
            use_type_invariant(rhs);
        }
        if !are_comparable(self.dtype, rhs.dtype) {
            return Err(ComparisonError::TypeMismatch);
        }
        if self.values.len() != rhs.values.len() {
            return Err(ComparisonError::LengthMismatch);
        }
        let n = self.values.len();
        let mut out: Vec<Option<AnyValue>> = Vec::new();
        let mut i: usize = 0;
        while i < n
            invariant
                n == self.values@.len(),
                n == rhs.values@.len(),
                i <= n,
                comparable(self.dtype, rhs.dtype),
                conforms(self.dtype, self.values@),
                conforms(rhs.dtype, rhs.values@),
                out@.len() == i,
                forall|j: int| 0 <= j < i ==> out@[j] == mask_elem(kind, self.values@[j], rhs.values@[j]),
            decreases n - i,
        {
            let e = match (&self.values[i], &rhs.values[i]) {
                (Some(a), Some(b)) => {
                    assert(self.values@[i as int] is Some);
                    assert(rhs.values@[i as int] is Some);
                    Some(AnyValue::Boolean(compare_values(kind, a, b)))
                },
                _ => None,
            };
            out.push(e);
            i = i + 1;
        }
        assert(out@ =~= mask_of(kind, self.values@, rhs.values@));
        Ok(Series { name: self.name.clone(), dtype: DataType::Boolean, values: out })
    }

    /// Applies `kind` to each element of this series and the scalar `rhs`.
    pub fn compare_scalar(&self, kind: CmpKind, rhs: &AnyValue) -> (r: Result<Series, ComparisonError>)
        ensures
            scalar_outcome(kind, *self, *rhs, r),
    {
        proof {
            use_type_invariant(self);
        }
        if !are_comparable(self.dtype, value_type(rhs)) {
            return Err(ComparisonError::TypeMismatch);
        }
        let n = self.values.len();
        let mut out: Vec<Option<AnyValue>> = Vec::new();
        let mut i: usize = 0;
        while i < n
            invariant
                n == self.values@.len(),
                i <= n,
                comparable(self.dtype, dtype_of(*rhs)),
                conforms(self.dtype, self.values@),
                out@.len() == i,
                forall|j: int| 0 <= j < i ==> out@[j] == mask_elem(kind, self.values@[j], Some(*rhs)),
            decreases n - i,
        {
            let e = match &self.values[i] {
                Some(a) => {
                    assert(self.values@[i as int] is Some);
                    Some(AnyValue::Boolean(compare_values(kind, a, rhs)))
                },
                None => None,
            };
            out.push(e);
            i = i + 1;
        }
        assert(out@ =~= scalar_mask_of(kind, self.values@, *rhs));
        Ok(Series { name: self.name.clone(), dtype: DataType::Boolean, values: out })
    }
}

} // verus!
