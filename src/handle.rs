//! The handle through which a host runtime reaches a series and its comparisons.
use crate::series::{scalar_outcome, series_outcome, Series};
use crate::types::{AnyValue, CmpKind, ComparisonError};
use vstd::prelude::*;

verus! {

/// A series as the host runtime holds it.
pub struct RbSeries {
    pub series: Series,
}

/// The series inside a result of handles.
pub open spec fn inner(r: Result<RbSeries, ComparisonError>) -> Result<Series, ComparisonError> {
    match r {
        Ok(h) => Ok(h.series),
        Err(e) => Err(e),
    }
}

impl RbSeries {
    pub fn new(series: Series) -> (r: RbSeries)
        ensures
            r.series == series,
    {
        RbSeries { series }
    }

    fn wrap(r: Result<Series, ComparisonError>) -> (o: Result<RbSeries, ComparisonError>)
        ensures
            inner(o) == r,
    {
        match r {
            Ok(s) => Ok(RbSeries { series: s }),
            Err(e) => Err(e),
        }
    }

    /// Applies `kind` position by position to this series and `rhs`.
    pub fn compare(&self, kind: CmpKind, rhs: &RbSeries) -> (r: Result<RbSeries, ComparisonError>)
        ensures
            series_outcome(kind, self.series, rhs.series, inner(r)),
    {
        Self::wrap(self.series.compare(kind, &rhs.series))
    }

    /// Applies `kind` to each element of this series and the scalar `rhs`.
    pub fn compare_scalar(&self, kind: CmpKind, rhs: &AnyValue) -> (r: Result<RbSeries, ComparisonError>)
        ensures
            scalar_outcome(kind, self.series, *rhs, inner(r)),
    {
        Self::wrap(self.series.compare_scalar(kind, rhs))
    }

    pub fn eq(&self, rhs: &RbSeries) -> (r: Result<RbSeries, ComparisonError>)
        ensures
            series_outcome(CmpKind::Equal, self.series, rhs.series, inner(r)),
    {
        self.compare(CmpKind::Equal, rhs)
    }

    pub fn neq(&self, rhs: &RbSeries) -> (r: Result<RbSeries, ComparisonError>)
        ensures
            series_outcome(CmpKind::NotEqual, self.series, rhs.series, inner(r)),
    {
        self.compare(CmpKind::NotEqual, rhs)
    }

    pub fn gt(&self, rhs: &RbSeries) -> (r: Result<RbSeries, ComparisonError>)
        ensures
            series_outcome(CmpKind::GreaterThan, self.series, rhs.series, inner(r)),
    {
        self.compare(CmpKind::GreaterThan, rhs)
    }

    pub fn gt_eq(&self, rhs: &RbSeries) -> (r: Result<RbSeries, ComparisonError>)
        ensures
            series_outcome(CmpKind::GreaterOrEqual, self.series, rhs.series, inner(r)),
    {
        self.compare(CmpKind::GreaterOrEqual, rhs)
    }

    pub fn lt(&self, rhs: &RbSeries) -> (r: Result<RbSeries, ComparisonError>)
        ensures
            series_outcome(CmpKind::LessThan, self.series, rhs.series, inner(r)),
    {
        self.compare(CmpKind::LessThan, rhs)
    }

    pub fn lt_eq(&self, rhs: &RbSeries) -> (r: Result<RbSeries, ComparisonError>)
        ensures
            series_outcome(CmpKind::LessOrEqual, self.series, rhs.series, inner(r)),
    {
        self.compare(CmpKind::LessOrEqual, rhs)
    }

    pub fn eq_str(&self, rhs: String) -> (r: Result<RbSeries, ComparisonError>)
        ensures
            scalar_outcome(CmpKind::Equal, self.series, AnyValue::Utf8(rhs), inner(r)),
    {
        self.compare_scalar(CmpKind::Equal, &AnyValue::Utf8(rhs))
    }

    pub fn neq_str(&self, rhs: String) -> (r: Result<RbSeries, ComparisonError>)
        ensures
            scalar_outcome(CmpKind::NotEqual, self.series, AnyValue::Utf8(rhs), inner(r)),
    {
        self.compare_scalar(CmpKind::NotEqual, &AnyValue::Utf8(rhs))
    }

    pub fn gt_str(&self, rhs: String) -> (r: Result<RbSeries, ComparisonError>)
        ensures
            scalar_outcome(CmpKind::GreaterThan, self.series, AnyValue::Utf8(rhs), inner(r)),
    {
        self.compare_scalar(CmpKind::GreaterThan, &AnyValue::Utf8(rhs))
    }

    pub fn gt_eq_str(&self, rhs: String) -> (r: Result<RbSeries, ComparisonError>)
        ensures
            scalar_outcome(CmpKind::GreaterOrEqual, self.series, AnyValue::Utf8(rhs), inner(r)),
    {
        self.compare_scalar(CmpKind::GreaterOrEqual, &AnyValue::Utf8(rhs))
    }

    pub fn lt_str(&self, rhs: String) -> (r: Result<RbSeries, ComparisonError>)
        ensures
            scalar_outcome(CmpKind::LessThan, self.series, AnyValue::Utf8(rhs), inner(r)),
    {
        self.compare_scalar(CmpKind::LessThan, &AnyValue::Utf8(rhs))
    }

    pub fn lt_eq_str(&self, rhs: String) -> (r: Result<RbSeries, ComparisonError>)
        ensures
            scalar_outcome(CmpKind::LessOrEqual, self.series, AnyValue::Utf8(rhs), inner(r)),
    {
        self.compare_scalar(CmpKind::LessOrEqual, &AnyValue::Utf8(rhs))
    }
}

} // verus!
