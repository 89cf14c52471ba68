use data_utils::arith::divide;
use data_utils::arith::DivideError;

#[test]
fn divide_exact() {
    assert_eq!(divide(10, 2), Ok(5));
}

#[test]
fn divide_truncates_toward_zero() {
    assert_eq!(divide(7, 2), Ok(3));
    assert_eq!(divide(7, -2), Ok(-3));
    assert_eq!(divide(-7, 2), Ok(-3));
    assert_eq!(divide(-7, -2), Ok(3));
}

#[test]
fn divide_by_zero_is_refused() {
    assert_eq!(divide(1, 0), Err(DivideError::DivisionByZero));
    assert_eq!(divide(0, 0), Err(DivideError::DivisionByZero));
    assert_eq!(divide(i32::MIN, 0), Err(DivideError::DivisionByZero));
}

#[test]
fn divide_min_by_minus_one_overflows() {
    assert_eq!(divide(i32::MIN, -1), Err(DivideError::Overflow));
}

#[test]
fn divide_at_the_edges() {
    assert_eq!(divide(i32::MIN, 1), Ok(i32::MIN));
    assert_eq!(divide(i32::MIN, -2), Ok(1073741824));
    assert_eq!(divide(i32::MAX, -1), Ok(-i32::MAX));
    assert_eq!(divide(0, -5), Ok(0));
}
