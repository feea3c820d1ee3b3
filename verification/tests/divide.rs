use peerchat::divide;

#[test]
fn divides_accurately() {
    assert_eq!(2, divide(20, 10));
}

#[test]
fn divide_rounds_toward_zero() {
    assert_eq!(-3, divide(-7, 2));
    assert_eq!(-3, divide(7, -2));
    assert_eq!(3, divide(-7, -2));
    assert_eq!(3, divide(7, 2));
    assert_eq!(0, divide(0, 5));
}

#[test]
fn divide_at_the_edges_of_i32() {
    assert_eq!(i32::MIN, divide(i32::MIN, 1));
    assert_eq!(-i32::MAX, divide(i32::MAX, -1));
    assert_eq!(1, divide(i32::MIN, i32::MIN));
    assert_eq!(0, divide(i32::MAX, i32::MIN));
}
