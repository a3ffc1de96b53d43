use timespan::Duration;

#[test]
fn max() {
    let duration = Duration::max_value();
    assert_eq!(i64::MAX, duration.seconds());
    assert_eq!(1_000_000_000u32 - 1, duration.nano());
}

#[test]
fn zero() {
    let duration = Duration::zero();
    assert_eq!(0i64, duration.seconds());
    assert_eq!(0u32, duration.nano());
}

#[test]
fn min() {
    let duration = Duration::min_value();
    assert_eq!(i64::MIN, duration.seconds());
    assert_eq!(0u32, duration.nano());
}

#[test]
fn factories_whole_units() {
    let days = Duration::of_days(2);
    assert_eq!(2 * 86_400, days.seconds());
    assert_eq!(0, days.nano());

    let hours = Duration::of_hours(-3);
    assert_eq!(-3 * 3_600, hours.seconds());
    assert_eq!(0, hours.nano());

    let minutes = Duration::of_minutes(90);
    assert_eq!(90 * 60, minutes.seconds());
    assert_eq!(0, minutes.nano());

    let seconds = Duration::of_seconds(-7);
    assert_eq!(-7, seconds.seconds());
    assert_eq!(0, seconds.nano());
}

#[test]
fn of_millis_borrows_for_negative_remainders() {
    let positive = Duration::of_millis(1_500);
    assert_eq!(1, positive.seconds());
    assert_eq!(500_000_000, positive.nano());

    let negative = Duration::of_millis(-1_500);
    assert_eq!(-2, negative.seconds());
    assert_eq!(500_000_000, negative.nano());

    let small_negative = Duration::of_millis(-300);
    assert_eq!(-1, small_negative.seconds());
    assert_eq!(700_000_000, small_negative.nano());
}

#[test]
fn of_nanos_borrows_for_negative_remainders() {
    let positive = Duration::of_nanos(1_000_000_001);
    assert_eq!(1, positive.seconds());
    assert_eq!(1, positive.nano());

    let negative = Duration::of_nanos(-300_000_000);
    assert_eq!(-1, negative.seconds());
    assert_eq!(700_000_000, negative.nano());

    let whole = Duration::of_nanos(-2_000_000_000);
    assert_eq!(-2, whole.seconds());
    assert_eq!(0, whole.nano());
}

#[test]
fn of_seconds_and_adjustment_normalizes() {
    let forward = Duration::of_seconds_and_adjustment(3, 1_000_000_001);
    assert_eq!(4, forward.seconds());
    assert_eq!(1, forward.nano());

    let backward = Duration::of_seconds_and_adjustment(-2, -300_000_000);
    assert_eq!(-3, backward.seconds());
    assert_eq!(700_000_000, backward.nano());

    let negative_fraction = Duration::of_seconds_and_adjustment(-1, 900_000_000);
    assert_eq!(-1, negative_fraction.seconds());
    assert_eq!(900_000_000, negative_fraction.nano());
}

#[test]
fn round_trip_matches_floor_division() {
    // The canonical pair of a raw total s * 1e9 + n follows floor division:
    // a negative total borrows one whole second.
    let cases: [(i64, i64, i64, u32); 5] = [
        (0, 1, 0, 1),
        (2, -300_000_001, 1, 699_999_999),
        (-2, -300_000_000, -3, 700_000_000),
        (5, 2_000_000_003, 7, 3),
        (-1, 900_000_000, -1, 900_000_000),
    ];
    for (seconds, adjustment, want_seconds, want_nanos) in cases {
        let duration = Duration::of_seconds_and_adjustment(seconds, adjustment);
        assert_eq!(want_seconds, duration.seconds());
        assert_eq!(want_nanos, duration.nano());
    }
}

#[test]
fn adjustment_overflow_boundaries() {
    assert!(Duration::of_seconds_and_adjustment_checked(i64::MAX, 1_000_000_000).is_none());
    assert!(Duration::of_seconds_and_adjustment_checked(i64::MAX, 999_999_999).is_some());
    assert!(Duration::of_seconds_and_adjustment_checked(i64::MIN, -1).is_none());
    assert!(Duration::of_seconds_and_adjustment_checked(i64::MIN, 0).is_some());
}
