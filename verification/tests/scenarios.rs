use ulimint::{LimError, ToLimInt};

#[test]
fn decompose_ten_against_five() {
    let b = 10usize.to_limint(5).unwrap();
    assert_eq!(b.value, 0);
    assert_eq!(b.overflow, 2);
    assert_eq!(b.true_value, 10);
    assert_eq!(b.to_int(), 10);
}

#[test]
fn decompose_seven_against_five() {
    let b = 7usize.to_limint(5).unwrap();
    assert_eq!(b.value, 2);
    assert_eq!(b.overflow, 1);
    assert_eq!(b.true_value, 7);
}

#[test]
fn add_seven_and_three_against_five() {
    let a = 7usize.to_limint(5).unwrap();
    let b = 3usize.to_limint(5).unwrap();
    let s = a.add(b).unwrap();
    assert_eq!(s.limit, 5);
    assert_eq!(s.value, 0);
    assert_eq!(s.overflow, 2);
    assert_eq!(s.true_value, 10);
    assert_eq!(s.to_int(), 7 + 3);
}

#[test]
fn sub_larger_from_smaller_underflows() {
    let a = 3usize.to_limint(5).unwrap();
    let b = 7usize.to_limint(5).unwrap();
    assert_eq!(a.sub(b), Err(LimError::Underflow));
}

#[test]
fn sub_smaller_from_larger() {
    let a = 7usize.to_limint(5).unwrap();
    let b = 3usize.to_limint(5).unwrap();
    let d = a.sub(b).unwrap();
    assert_eq!(d.limit, 5);
    assert_eq!(d.value, 4);
    assert_eq!(d.overflow, 0);
    assert_eq!(d.to_int(), 7 - 3);
}

#[test]
fn mul_seven_by_three_against_five() {
    let a = 7usize.to_limint(5).unwrap();
    let b = 3usize.to_limint(5).unwrap();
    let p = a.mul(b).unwrap();
    assert_eq!(p.limit, 5);
    assert_eq!(p.value, 1);
    assert_eq!(p.overflow, 4);
    assert_eq!(p.to_int(), 7 * 3);
}

#[test]
fn div_by_raw_zero_is_refused() {
    let a = 10usize.to_limint(5).unwrap();
    let z = 0usize.to_limint(5).unwrap();
    assert_eq!(a.div(z), Err(LimError::DivisionByZero));
}

#[test]
fn div_ten_by_three_against_five() {
    let a = 10usize.to_limint(5).unwrap();
    let b = 3usize.to_limint(5).unwrap();
    let q = a.div(b).unwrap();
    assert_eq!(q.limit, 5);
    assert_eq!(q.value, 3);
    assert_eq!(q.overflow, 0);
    assert_eq!(q.to_int(), 10 / 3);
}

#[test]
fn zero_limit_is_refused() {
    assert_eq!(10usize.to_limint(0), Err(LimError::DivisionByZero));
    assert_eq!(0usize.to_limint(0), Err(LimError::DivisionByZero));
}

#[test]
fn round_trip_reconstructs_raw() {
    let raws: Vec<usize> = vec![0, 1, 4, 5, 6, 34, 999, usize::MAX];
    for raw in raws {
        let b = raw.to_limint(7).unwrap();
        assert_eq!(b.to_int(), raw);
        assert_eq!(b.true_value, raw);
    }
}

#[test]
fn decomposition_bounds_hold() {
    let raws: Vec<usize> = vec![0, 1, 6, 7, 8, 48, 1000];
    for raw in raws {
        let b = raw.to_limint(7).unwrap();
        assert!(b.value < b.limit);
        assert_eq!(b.overflow, (raw - b.value) / b.limit);
    }
}

#[test]
fn equality_checks_all_fields() {
    let a = 10usize.to_limint(5).unwrap();
    let b = 10usize.to_limint(5).unwrap();
    let c = 10usize.to_limint(7).unwrap();
    let d = 11usize.to_limint(5).unwrap();
    assert!(a == a);
    assert!(a == b);
    assert!(a != c);
    assert!(a != d);
}

// The operators decompose against the left operand's limit; the right
// operand's limit is ignored, never validated.
#[test]
fn operators_keep_the_left_limit() {
    let a = 7usize.to_limint(5).unwrap();
    let b = 3usize.to_limint(4).unwrap();
    let left = a.add(b).unwrap();
    assert_eq!(left.limit, 5);
    assert_eq!(left.value, 0);
    assert_eq!(left.overflow, 2);
    let right = b.add(a).unwrap();
    assert_eq!(right.limit, 4);
    assert_eq!(right.value, 2);
    assert_eq!(right.overflow, 2);
}
