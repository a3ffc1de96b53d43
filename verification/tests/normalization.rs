use timespan::carry_and_nanos;
use timespan::of_seconds_and_adjustment_checked;
use timespan::seconds_and_nanos;

#[test]
fn carry_one_step() {
    assert_eq!((0, 0), carry_and_nanos(0));
    assert_eq!((0, 999_999_999), carry_and_nanos(999_999_999));
    assert_eq!((1, 0), carry_and_nanos(1_000_000_000));
    assert_eq!((1, 999_999_999), carry_and_nanos(1_999_999_999));
    assert_eq!((-1, 999_999_999), carry_and_nanos(-1));
    assert_eq!((-1, 1), carry_and_nanos(-999_999_999));
}

#[test]
fn split_arbitrary_counts() {
    assert_eq!((0, 0), seconds_and_nanos(0));
    assert_eq!((2, 5), seconds_and_nanos(2_000_000_005));
    assert_eq!((-1, 700_000_000), seconds_and_nanos(-300_000_000));
    assert_eq!((-3, 500_000_000), seconds_and_nanos(-2_500_000_000));
    assert_eq!((9_223_372_036, 854_775_807), seconds_and_nanos(i64::MAX));
    assert_eq!((-9_223_372_037, 145_224_192), seconds_and_nanos(i64::MIN));
}

#[test]
fn fold_adjustment_into_base() {
    assert_eq!(Some((0, 500_000_000)), of_seconds_and_adjustment_checked(2, -1_500_000_000));
    assert_eq!(Some((-2, 500_000_000)), of_seconds_and_adjustment_checked(0, -1_500_000_000));
    assert_eq!(None, of_seconds_and_adjustment_checked(i64::MAX, 1_000_000_000));
    assert_eq!(None, of_seconds_and_adjustment_checked(i64::MIN, -1));
}
