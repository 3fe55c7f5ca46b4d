use rust_ffi::{diviser_entiers, ERROR_INVALID_INPUT, SUCCESS};

#[test]
fn status_codes() {
    assert_eq!(SUCCESS, 0);
    assert_eq!(ERROR_INVALID_INPUT, -1);
}

#[test]
fn divide_exact() {
    let mut out: i32 = 0;
    assert_eq!(diviser_entiers(10, 2, Some(&mut out)), 0);
    assert_eq!(out, 5);
}

#[test]
fn divide_by_zero_leaves_output() {
    let mut out: i32 = 12345;
    assert_eq!(diviser_entiers(7, 0, Some(&mut out)), -1);
    assert_eq!(out, 12345);
}

#[test]
fn divide_without_output_slot() {
    assert_eq!(diviser_entiers(10, 2, None), -1);
    assert_eq!(diviser_entiers(7, 0, None), -1);
    assert_eq!(diviser_entiers(i32::MIN, -1, None), -1);
}

#[test]
fn divide_truncates_toward_zero() {
    let mut out: i32 = 0;
    assert_eq!(diviser_entiers(-9, 2, Some(&mut out)), 0);
    assert_eq!(out, -4);
    assert_eq!(diviser_entiers(9, -2, Some(&mut out)), 0);
    assert_eq!(out, -4);
    assert_eq!(diviser_entiers(-9, -2, Some(&mut out)), 0);
    assert_eq!(out, 4);
    assert_eq!(diviser_entiers(1, 2, Some(&mut out)), 0);
    assert_eq!(out, 0);
}

#[test]
fn divide_extreme_operands() {
    let mut out: i32 = 0;
    assert_eq!(diviser_entiers(i32::MIN, 1, Some(&mut out)), 0);
    assert_eq!(out, i32::MIN);
    assert_eq!(diviser_entiers(i32::MIN, 2, Some(&mut out)), 0);
    assert_eq!(out, -1073741824);
    assert_eq!(diviser_entiers(i32::MAX, -1, Some(&mut out)), 0);
    assert_eq!(out, -i32::MAX);
    assert_eq!(diviser_entiers(i32::MIN, i32::MIN, Some(&mut out)), 0);
    assert_eq!(out, 1);
}

#[test]
fn divide_repeats_identically() {
    let mut first: i32 = 0;
    let mut second: i32 = 0;
    let r1 = diviser_entiers(-17, 5, Some(&mut first));
    let r2 = diviser_entiers(-17, 5, Some(&mut second));
    assert_eq!(r1, r2);
    assert_eq!(first, second);
    assert_eq!(first, -3);
}
