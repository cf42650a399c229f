use series_compare::compare::compare_values;
use series_compare::number::{cmp_numbers, number_from_f64_bits, number_from_int};
use series_compare::text::cmp_bytes;
use series_compare::{AnyValue, CmpKind, ComparisonError, DataType, RbSeries, Series};
use std::cmp::Ordering;

fn series(dtype: DataType, values: Vec<Option<AnyValue>>) -> RbSeries {
    RbSeries::new(Series::new("s".to_string(), dtype, values).expect("well typed"))
}

fn i32s(values: &[Option<i32>]) -> RbSeries {
    series(DataType::Int32, values.iter().map(|v| v.map(AnyValue::Int32)).collect())
}

fn f64s(values: &[Option<f64>]) -> RbSeries {
    series(
        DataType::Float64,
        values.iter().map(|v| v.map(|x| AnyValue::Float64(x.to_bits()))).collect(),
    )
}

fn strs(values: &[Option<&str>]) -> RbSeries {
    series(
        DataType::Utf8,
        values.iter().map(|v| v.map(|x| AnyValue::Utf8(x.to_string()))).collect(),
    )
}

fn mask(r: Result<RbSeries, ComparisonError>) -> Vec<Option<bool>> {
    let s = r.expect("comparison succeeds").series;
    assert_eq!(s.dtype(), DataType::Boolean);
    (0..s.len())
        .map(|i| match s.get(i) {
            Some(AnyValue::Boolean(b)) => Some(*b),
            None => None,
            Some(other) => panic!("not a boolean: {:?}", other),
        })
        .collect()
}

#[test]
fn equal_int32_series_with_scalar() {
    let left = i32s(&[Some(1), Some(2), None, Some(4)]);
    let r = left.compare_scalar(CmpKind::Equal, &AnyValue::Int32(2));
    assert_eq!(mask(r), vec![Some(false), Some(true), None, Some(false)]);
}

#[test]
fn less_than_text_series() {
    let left = strs(&[Some("apple"), Some("banana")]);
    let right = strs(&[Some("banana"), Some("banana")]);
    assert_eq!(mask(left.lt(&right)), vec![Some(true), Some(false)]);
}

#[test]
fn equal_widens_u8_against_i32() {
    let left = series(
        DataType::UInt8,
        vec![Some(AnyValue::UInt8(1)), Some(AnyValue::UInt8(255))],
    );
    let right = i32s(&[Some(300), Some(255)]);
    assert_eq!(mask(left.eq(&right)), vec![Some(false), Some(true)]);
}

#[test]
fn text_against_int_is_type_mismatch() {
    let left = strs(&[Some("a")]);
    let right = i32s(&[Some(1)]);
    assert_eq!(left.eq(&right).err(), Some(ComparisonError::TypeMismatch));
    assert_eq!(right.eq(&left).err(), Some(ComparisonError::TypeMismatch));
}

#[test]
fn different_lengths_are_length_mismatch() {
    let left = i32s(&[Some(1), Some(2), Some(3)]);
    let right = i32s(&[Some(1), Some(2), Some(3), Some(4), Some(5)]);
    assert_eq!(left.eq(&right).err(), Some(ComparisonError::LengthMismatch));
}

#[test]
fn type_mismatch_is_reported_before_length_mismatch() {
    let left = strs(&[Some("a")]);
    let right = i32s(&[Some(1), Some(2)]);
    assert_eq!(left.eq(&right).err(), Some(ComparisonError::TypeMismatch));
}

#[test]
fn booleans_are_not_comparable() {
    let left = series(DataType::Boolean, vec![Some(AnyValue::Boolean(true))]);
    assert_eq!(left.eq(&left).err(), Some(ComparisonError::TypeMismatch));
    let ints = i32s(&[Some(1)]);
    assert_eq!(
        ints.compare_scalar(CmpKind::Equal, &AnyValue::Boolean(true)).err(),
        Some(ComparisonError::TypeMismatch)
    );
}

#[test]
fn text_series_against_int_scalar_is_type_mismatch() {
    let left = strs(&[Some("a")]);
    assert_eq!(
        left.compare_scalar(CmpKind::LessThan, &AnyValue::Int64(3)).err(),
        Some(ComparisonError::TypeMismatch)
    );
    let ints = i32s(&[Some(1)]);
    assert_eq!(ints.eq_str("1".to_string()).err(), Some(ComparisonError::TypeMismatch));
}

#[test]
fn every_operator_on_series() {
    let left = i32s(&[Some(1), Some(2), Some(3), None]);
    let right = i32s(&[Some(2), Some(2), Some(2), Some(2)]);
    let n = None;
    let (t, f) = (Some(true), Some(false));
    assert_eq!(mask(left.eq(&right)), vec![f, t, f, n]);
    assert_eq!(mask(left.neq(&right)), vec![t, f, t, n]);
    assert_eq!(mask(left.gt(&right)), vec![f, f, t, n]);
    assert_eq!(mask(left.gt_eq(&right)), vec![f, t, t, n]);
    assert_eq!(mask(left.lt(&right)), vec![t, f, f, n]);
    assert_eq!(mask(left.lt_eq(&right)), vec![t, t, f, n]);
}

#[test]
fn every_operator_on_text_scalar() {
    let left = strs(&[Some("a"), Some("b"), Some("c"), None]);
    let n = None;
    let (t, f) = (Some(true), Some(false));
    assert_eq!(mask(left.eq_str("b".to_string())), vec![f, t, f, n]);
    assert_eq!(mask(left.neq_str("b".to_string())), vec![t, f, t, n]);
    assert_eq!(mask(left.gt_str("b".to_string())), vec![f, f, t, n]);
    assert_eq!(mask(left.gt_eq_str("b".to_string())), vec![f, t, t, n]);
    assert_eq!(mask(left.lt_str("b".to_string())), vec![t, f, f, n]);
    assert_eq!(mask(left.lt_eq_str("b".to_string())), vec![t, t, f, n]);
}

#[test]
fn text_orders_by_bytes_with_prefix_first() {
    let left = strs(&[Some("ab"), Some(""), Some("Z"), Some("é"), Some("abc")]);
    let right = strs(&[Some("abc"), Some("a"), Some("a"), Some("z"), Some("abc")]);
    assert_eq!(
        mask(left.lt(&right)),
        vec![Some(true), Some(true), Some(true), Some(false), Some(false)]
    );
    assert_eq!(
        mask(left.eq(&right)),
        vec![Some(false), Some(false), Some(false), Some(false), Some(true)]
    );
}

#[test]
fn nulls_on_either_side_give_null() {
    let left = i32s(&[None, Some(1), None]);
    let right = i32s(&[Some(1), None, None]);
    for r in [left.eq(&right), left.neq(&right), left.gt(&right), left.lt_eq(&right)] {
        assert_eq!(mask(r), vec![None, None, None]);
    }
}

#[test]
fn mask_keeps_length_and_name() {
    let left = i32s(&[Some(1), None, Some(3)]);
    let right = i32s(&[Some(0), Some(0), Some(0)]);
    let r = left.gt(&right).unwrap().series;
    assert_eq!(r.len(), 3);
    assert_eq!(r.name().as_str(), "s");
    let r = left.compare_scalar(CmpKind::GreaterThan, &AnyValue::UInt64(2)).unwrap().series;
    assert_eq!(r.len(), 3);
}

#[test]
fn empty_series_give_empty_mask() {
    let left = i32s(&[]);
    assert_eq!(mask(left.eq(&left)), Vec::<Option<bool>>::new());
    assert_eq!(mask(left.eq_str("x".to_string()).or_else(|_| left.eq(&left))), vec![]);
}

#[test]
fn repeated_comparisons_agree() {
    let left = f64s(&[Some(1.5), Some(f64::NAN), None]);
    let right = i32s(&[Some(1), Some(1), Some(1)]);
    assert_eq!(mask(left.gt_eq(&right)), mask(left.gt_eq(&right)));
}

#[test]
fn nan_compares_false_but_not_equal() {
    let nan = AnyValue::Float64(f64::NAN.to_bits());
    let one = AnyValue::Float32(1.0f32.to_bits());
    assert!(!compare_values(CmpKind::Equal, &nan, &nan));
    assert!(compare_values(CmpKind::NotEqual, &nan, &nan));
    for kind in [CmpKind::GreaterThan, CmpKind::LessThan, CmpKind::GreaterOrEqual, CmpKind::LessOrEqual] {
        assert!(!compare_values(kind, &nan, &one));
        assert!(!compare_values(kind, &one, &nan));
    }
    let left = f64s(&[Some(f64::NAN)]);
    assert_eq!(mask(left.eq(&left)), vec![Some(false)]);
    assert_eq!(mask(left.neq(&left)), vec![Some(true)]);
}

#[test]
fn exactly_one_of_less_equal_greater() {
    let values = [
        AnyValue::Int8(-3),
        AnyValue::UInt64(u64::MAX),
        AnyValue::Int64(i64::MIN),
        AnyValue::Float32(0.5f32.to_bits()),
        AnyValue::Float64((-0.0f64).to_bits()),
        AnyValue::Float64(f64::INFINITY.to_bits()),
        AnyValue::UInt16(0),
    ];
    for a in &values {
        for b in &values {
            let lt = compare_values(CmpKind::LessThan, a, b);
            let eq = compare_values(CmpKind::Equal, a, b);
            let gt = compare_values(CmpKind::GreaterThan, a, b);
            assert_eq!([lt, eq, gt].iter().filter(|x| **x).count(), 1);
            assert_eq!(compare_values(CmpKind::GreaterOrEqual, a, b), gt || eq);
            assert_eq!(compare_values(CmpKind::LessOrEqual, a, b), lt || eq);
            assert_eq!(compare_values(CmpKind::NotEqual, a, b), !eq);
        }
    }
}

#[test]
fn mixed_signs_and_widths() {
    let big = AnyValue::UInt64(u64::MAX);
    let neg = AnyValue::Int64(-1);
    assert!(compare_values(CmpKind::GreaterThan, &big, &neg));
    assert!(compare_values(CmpKind::LessThan, &AnyValue::Int64(i64::MIN), &AnyValue::UInt8(0)));
    assert!(compare_values(CmpKind::Equal, &AnyValue::Int8(-128), &AnyValue::Int64(-128)));
}

#[test]
fn floats_against_integers() {
    let f = |x: f64| AnyValue::Float64(x.to_bits());
    assert!(compare_values(CmpKind::LessThan, &f(1.5), &AnyValue::Int32(2)));
    assert!(compare_values(CmpKind::GreaterThan, &f(1.5), &AnyValue::Int32(1)));
    assert!(compare_values(CmpKind::Equal, &f(-2.0), &AnyValue::Int8(-2)));
    assert!(compare_values(CmpKind::Equal, &f(0.0), &f(-0.0)));
    assert!(compare_values(CmpKind::GreaterThan, &f(f64::INFINITY), &AnyValue::UInt64(u64::MAX)));
    assert!(compare_values(CmpKind::LessThan, &f(f64::NEG_INFINITY), &AnyValue::Int64(i64::MIN)));
    assert!(compare_values(CmpKind::Equal, &f(1e19), &AnyValue::UInt64(10_000_000_000_000_000_000)));
    assert!(compare_values(CmpKind::LessThan, &f(5e-324), &AnyValue::UInt8(1)));
    assert!(compare_values(CmpKind::GreaterThan, &f(5e-324), &AnyValue::UInt8(0)));
}

#[test]
fn integers_are_compared_without_rounding() {
    let two_53 = AnyValue::Float64(9_007_199_254_740_992.0f64.to_bits());
    let above = AnyValue::Int64(9_007_199_254_740_993);
    assert!(compare_values(CmpKind::GreaterThan, &above, &two_53));
    assert!(compare_values(CmpKind::NotEqual, &above, &two_53));
}

#[test]
fn f32_widens_exactly_to_f64() {
    let a = AnyValue::Float32(0.1f32.to_bits());
    let b = AnyValue::Float64(0.1f64.to_bits());
    assert!(!compare_values(CmpKind::Equal, &a, &b));
    assert!(compare_values(CmpKind::GreaterThan, &a, &b));
    let c = AnyValue::Float64((0.1f32 as f64).to_bits());
    assert!(compare_values(CmpKind::Equal, &a, &c));
    let tiny = AnyValue::Float32(f32::from_bits(1).to_bits());
    let tiny64 = AnyValue::Float64((f32::from_bits(1) as f64).to_bits());
    assert!(compare_values(CmpKind::Equal, &tiny, &tiny64));
}

#[test]
fn series_new_rejects_foreign_values() {
    let r = Series::new("x".to_string(), DataType::Int32, vec![Some(AnyValue::Int64(1))]);
    assert!(r.is_none());
    let r = Series::new("x".to_string(), DataType::Int32, vec![None, Some(AnyValue::Int32(1))]);
    let s = r.unwrap();
    assert_eq!(s.len(), 2);
    assert_eq!(s.dtype(), DataType::Int32);
    assert_eq!(s.get(1), &Some(AnyValue::Int32(1)));
}

#[test]
fn number_and_byte_orderings() {
    assert_eq!(cmp_numbers(&number_from_int(-5), &number_from_f64_bits((-4.5f64).to_bits())), Some(Ordering::Less));
    assert_eq!(cmp_numbers(&number_from_f64_bits(f64::NAN.to_bits()), &number_from_int(0)), None);
    assert_eq!(cmp_bytes(b"abd", b"abc"), Ordering::Greater);
    assert_eq!(cmp_bytes(b"", b""), Ordering::Equal);
}
