use timespan::Instant;

#[test]
fn instant_bounds() {
    let min = Instant::min_value();
    assert_eq!(i64::MIN, min.epoch_second());
    assert_eq!(0u32, min.nano());

    let epoch = Instant::epoch();
    assert_eq!(0i64, epoch.epoch_second());
    assert_eq!(0u32, epoch.nano());

    let max = Instant::max_value();
    assert_eq!(i64::MAX, max.epoch_second());
    assert_eq!(999_999_999u32, max.nano());
}

#[test]
fn of_epoch_second_values() {
    let instant = Instant::of_epoch_second(-42);
    assert_eq!(-42, instant.epoch_second());
    assert_eq!(0, instant.nano());
}

#[test]
fn of_epoch_milli_borrows_for_negative_remainders() {
    let positive = Instant::of_epoch_milli(1_500);
    assert_eq!(1, positive.epoch_second());
    assert_eq!(500_000_000, positive.nano());

    let negative = Instant::of_epoch_milli(-1_500);
    assert_eq!(-2, negative.epoch_second());
    assert_eq!(500_000_000, negative.nano());

    let small_negative = Instant::of_epoch_milli(-300);
    assert_eq!(-1, small_negative.epoch_second());
    assert_eq!(700_000_000, small_negative.nano());
}

#[test]
fn of_epoch_second_and_adjustment_normalizes() {
    let forward = Instant::of_epoch_second_and_adjustment(3, 1_000_000_001);
    assert_eq!(4, forward.epoch_second());
    assert_eq!(1, forward.nano());

    let backward = Instant::of_epoch_second_and_adjustment(-2, -300_000_000);
    assert_eq!(-3, backward.epoch_second());
    assert_eq!(700_000_000, backward.nano());
}

#[test]
fn instant_adjustment_overflow_boundaries() {
    assert!(Instant::of_epoch_second_and_adjustment_checked(i64::MAX, 1_000_000_000).is_none());
    assert!(Instant::of_epoch_second_and_adjustment_checked(i64::MAX, 999_999_999).is_some());
    assert!(Instant::of_epoch_second_and_adjustment_checked(i64::MIN, -1).is_none());
    assert!(Instant::of_epoch_second_and_adjustment_checked(i64::MIN, 0).is_some());
}
