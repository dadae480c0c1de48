use threeway::add_one;

#[test]
fn add_one_of_zero() {
    assert_eq!(add_one(0), 1);
}

#[test]
fn add_one_of_positive() {
    assert_eq!(add_one(10), 11);
    assert_eq!(add_one(41), 42);
}

#[test]
fn add_one_of_negative() {
    assert_eq!(add_one(-1), 0);
    assert_eq!(add_one(-3), -2);
}

#[test]
fn add_one_at_the_ends_of_the_range() {
    assert_eq!(add_one(i32::MIN), i32::MIN + 1);
    assert_eq!(add_one(i32::MAX - 1), i32::MAX);
}

#[test]
fn add_one_is_strictly_larger() {
    for &x in [i32::MIN, -7, 0, 7, i32::MAX - 1].iter() {
        assert!(add_one(x) > x);
        assert_eq!(add_one(x) - x, 1);
    }
}
