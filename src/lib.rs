//! Relational comparison of typed, nullable series against series and scalars,
//! producing boolean masks.
use vstd::prelude::*;

pub mod compare;
pub mod handle;
pub mod laws;
pub mod number;
pub mod series;
pub mod text;
pub mod types;

pub use handle::RbSeries;
pub use series::Series;
pub use types::{AnyValue, CmpKind, ComparisonError, DataType};

verus! {

} // verus!
