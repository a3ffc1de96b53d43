use timespan::checked_neg;
use timespan::Duration;

#[test]
fn add_and_subtract() {
    let left = Duration::of_seconds_and_adjustment(5, 600_000_000);
    let right = Duration::of_seconds_and_adjustment(2, 700_000_000);

    let sum = left.plus(right);
    assert_eq!(8, sum.seconds());
    assert_eq!(300_000_000, sum.nano());

    let difference = left.minus(right);
    assert_eq!(2, difference.seconds());
    assert_eq!(900_000_000, difference.nano());
}

#[test]
fn additive_identity() {
    // d + ZERO == d and d - ZERO == d.
    let cases = [
        Duration::zero(),
        Duration::of_seconds_and_adjustment(-4, 666_666_667),
        Duration::of_seconds(7),
        Duration::min_value(),
        Duration::max_value(),
    ];
    for duration in cases {
        assert_eq!(duration, duration.plus(Duration::zero()));
        assert_eq!(duration, duration.minus(Duration::zero()));
    }
}

#[test]
fn addition_overflow_boundary() {
    assert!(Duration::max_value().plus_checked(Duration::of_seconds(1)).is_none());
    assert!(Duration::max_value().plus_checked(Duration::zero()).is_some());
}

#[test]
fn subtraction_overflow_boundary() {
    assert!(Duration::min_value().minus_checked(Duration::of_seconds(1)).is_none());
    assert!(Duration::min_value().minus_checked(Duration::zero()).is_some());
}

#[test]
fn subtracting_the_minimum_duration() {
    // -MIN is unrepresentable on its own, but subtracting MIN from a
    // negative duration stays in range.
    let start = Duration::of_seconds(-10);
    let difference = start.minus(Duration::min_value());
    assert_eq!(i64::MAX - 9, difference.seconds());
    assert_eq!(0, difference.nano());

    let with_nanos = Duration::of_seconds_and_adjustment(-3, 250_000_000)
        .minus(Duration::of_seconds_and_adjustment(i64::MIN, 750_000_000));
    assert_eq!(i64::MAX - 3, with_nanos.seconds());
    assert_eq!(500_000_000, with_nanos.nano());
}

#[test]
fn negation_involution() {
    // -(-d) == d; the sign flips unless d is zero; the amplitude is kept.
    let cases = [
        Duration::of_seconds_and_adjustment(1, 300_000_000),
        Duration::of_seconds_and_adjustment(-2, 700_000_000),
        Duration::of_seconds(-5),
        Duration::zero(),
    ];
    for duration in cases {
        let negated = duration.negated();
        assert_eq!(duration, negated.negated());
        if duration == Duration::zero() {
            assert_eq!(duration, negated);
        } else {
            assert_ne!(duration.seconds() < 0, negated.seconds() < 0);
        }
    }
}

#[test]
fn negation_flips_the_machine_form() {
    let negated = Duration::of_seconds_and_adjustment(1, 300_000_000).negated();
    assert_eq!(-2, negated.seconds());
    assert_eq!(700_000_000, negated.nano());

    let back_to_whole = Duration::of_seconds(4).negated();
    assert_eq!(-4, back_to_whole.seconds());
    assert_eq!(0, back_to_whole.nano());
}

#[test]
fn neg_boundary() {
    // Negating the minimum duration overflows; one nanosecond above it the
    // negation is the maximum duration.
    assert!(checked_neg(Duration::min_value()).is_none());
    let just_above = Duration::of_seconds_and_adjustment(i64::MIN, 1);
    let negated = checked_neg(just_above).unwrap();
    assert_eq!(Duration::max_value(), negated);
}

#[test]
fn abs_sign() {
    let cases = [
        Duration::of_seconds_and_adjustment(-2, 700_000_000),
        Duration::of_seconds(3),
        Duration::zero(),
        Duration::of_seconds_and_adjustment(i64::MIN, 1),
    ];
    for duration in cases {
        let absolute = duration.abs();
        assert!(absolute.seconds() >= 0);
    }
}

#[test]
fn abs_values() {
    let negative = Duration::of_seconds_and_adjustment(-2, 700_000_000);
    let absolute = negative.abs();
    assert_eq!(1, absolute.seconds());
    assert_eq!(300_000_000, absolute.nano());

    let positive = Duration::of_seconds_and_adjustment(2, 1);
    assert_eq!(positive, positive.abs());
}

#[test]
fn plus_units() {
    let start = Duration::of_seconds_and_adjustment(1, 999_999_999);
    assert_eq!(86_401, start.plus_days(1).seconds());
    assert_eq!(3_601, start.plus_hours(1).seconds());
    assert_eq!(61, start.plus_minutes(1).seconds());
    assert_eq!(2, start.plus_seconds(1).seconds());

    let millis = start.plus_millis(2);
    assert_eq!(2, millis.seconds());
    assert_eq!(1_999_999, millis.nano());

    let nanos = start.plus_nanos(2);
    assert_eq!(2, nanos.seconds());
    assert_eq!(1, nanos.nano());
}

#[test]
fn minus_units() {
    let start = Duration::of_seconds(100_000);
    assert_eq!(100_000 - 86_400, start.minus_days(1).seconds());
    assert_eq!(100_000 - 3_600, start.minus_hours(1).seconds());
    assert_eq!(100_000 - 60, start.minus_minutes(1).seconds());
    assert_eq!(99_999, start.minus_seconds(1).seconds());

    let millis = start.minus_millis(1);
    assert_eq!(99_999, millis.seconds());
    assert_eq!(999_000_000, millis.nano());

    let nanos = start.minus_nanos(1);
    assert_eq!(99_999, nanos.seconds());
    assert_eq!(999_999_999, nanos.nano());
}

#[test]
fn minus_negative_units() {
    let start = Duration::zero();
    assert_eq!(86_400, start.minus_days(-1).seconds());
    assert_eq!(60, start.minus_minutes(-1).seconds());
    let millis = start.minus_millis(-1_500);
    assert_eq!(1, millis.seconds());
    assert_eq!(500_000_000, millis.nano());
}

#[test]
fn plus_unit_overflow_boundaries() {
    // The day count itself must stay representable as seconds.
    assert!(Duration::zero().plus_days_checked(i64::MAX / 86_400 + 1).is_none());
    assert!(Duration::zero().plus_days_checked(i64::MAX / 86_400).is_some());
    assert!(Duration::zero().plus_hours_checked(i64::MAX / 3_600 + 1).is_none());
    assert!(Duration::zero().plus_minutes_checked(i64::MAX / 60 + 1).is_none());
    // The sum must stay representable.
    assert!(Duration::max_value().plus_seconds_checked(1).is_none());
    assert!(Duration::max_value().plus_nanos_checked(1).is_none());
    assert!(Duration::max_value().plus_nanos_checked(0).is_some());
    assert!(Duration::max_value().plus_millis_checked(1).is_none());
    assert!(Duration::of_seconds(i64::MIN).plus_seconds_checked(-1).is_none());
}

#[test]
fn factory_overflow_boundaries() {
    // of_days(i64::MAX / 86400 + 1) is the first failing day count.
    assert!(Duration::of_days_checked(i64::MAX / 86_400 + 1).is_none());
    assert!(Duration::of_days_checked(i64::MAX / 86_400).is_some());
    assert!(Duration::of_days_checked(i64::MIN / 86_400 - 1).is_none());
    assert!(Duration::of_hours_checked(i64::MAX / 3_600 + 1).is_none());
    assert!(Duration::of_hours_checked(i64::MAX / 3_600).is_some());
    assert!(Duration::of_minutes_checked(i64::MAX / 60 + 1).is_none());
    assert!(Duration::of_minutes_checked(i64::MAX / 60).is_some());
}

#[test]
fn multiply_specific() {
    let cases: [(i64, i64, i64, i64, u32); 12] = [
        (-4, 666_666_667, -3, 9, 999_999_999),
        (-4, 666_666_667, -2, 6, 666_666_666),
        (-4, 666_666_667, -1, 3, 333_333_333),
        (-4, 666_666_667, 0, 0, 0),
        (-4, 666_666_667, 1, -4, 666_666_667),
        (-4, 666_666_667, 2, -7, 333_333_334),
        (-4, 666_666_667, 3, -10, 1),
        (-1, 500_000_000, -2, 1, 0),
        (-1, 500_000_000, 3, -2, 500_000_000),
        (0, 500_000_000, -3, -2, 500_000_000),
        (0, 500_000_000, 2, 1, 0),
        (3, 333_333_333, -3, -10, 1),
    ];
    for (seconds, nanos, factor, want_seconds, want_nanos) in cases {
        let product = Duration::of_seconds_and_adjustment(seconds, nanos).multiplied_by(factor);
        assert_eq!(want_seconds, product.seconds());
        assert_eq!(want_nanos, product.nano());
    }

    assert_eq!(
        Duration::of_seconds(i64::MAX),
        Duration::of_seconds(1).multiplied_by(i64::MAX)
    );
    assert_eq!(Duration::min_value(), Duration::of_seconds(1).multiplied_by(i64::MIN));
}

#[test]
fn multiply_unit() {
    let duration = Duration::of_seconds_and_adjustment(-4, 666_666_667);
    assert_eq!(Duration::zero(), duration.multiplied_by(0));
}

#[test]
fn multiply_identity() {
    let duration = Duration::of_seconds_and_adjustment(-4, 666_666_667);
    assert_eq!(duration, duration.multiplied_by(1));
}

#[test]
fn multiply_associative() {
    let duration = Duration::of_seconds_and_adjustment(-123, 456_789_012);
    let in_turn = duration.multiplied_by(-7).multiplied_by(11);
    let at_once = duration.multiplied_by(-77);
    assert_eq!(in_turn, at_once);
}

#[test]
fn multiply_distributive() {
    let left = Duration::of_seconds_and_adjustment(-3, 999_999_999);
    let right = Duration::of_seconds_and_adjustment(8, 2);
    let factor = -41;
    let scaled_sum = left.plus(right).multiplied_by(factor);
    let sum_of_scaled = left.multiplied_by(factor).plus(right.multiplied_by(factor));
    assert_eq!(scaled_sum, sum_of_scaled);
}

#[test]
fn multiply_overflow_boundary() {
    assert!(Duration::max_value().multiplied_by_checked(2).is_none());
    assert!(Duration::min_value().multiplied_by_checked(-1).is_none());
    assert!(Duration::min_value().multiplied_by_checked(1).is_some());
    assert!(Duration::of_seconds(2).multiplied_by_checked(i64::MAX).is_none());
    assert!(Duration::of_nanos(1).multiplied_by_checked(i64::MAX).is_some());
}

#[test]
fn assign_forms_match_their_operations() {
    let left = Duration::of_seconds_and_adjustment(5, 600_000_000);
    let right = Duration::of_seconds_and_adjustment(2, 700_000_000);

    let mut sum = left;
    sum.plus_assign(right);
    assert_eq!(left.plus(right), sum);

    let mut difference = left;
    difference.minus_assign(right);
    assert_eq!(left.minus(right), difference);

    let mut product = Duration::of_seconds_and_adjustment(-4, 666_666_667);
    product.multiply_assign(3);
    assert_eq!(-10, product.seconds());
    assert_eq!(1, product.nano());
}

#[test]
fn multiply_assign_unit_and_identity() {
    let duration = Duration::of_seconds_and_adjustment(-4, 666_666_667);

    let mut zeroed = duration;
    zeroed.multiply_assign(0);
    assert_eq!(Duration::zero(), zeroed);

    let mut kept = duration;
    kept.multiply_assign(1);
    assert_eq!(duration, kept);
}

#[test]
fn to_whole_units_truncate_toward_zero() {
    assert_eq!(2, Duration::of_seconds(2 * 86_400 + 86_399).to_days());
    assert_eq!(-2, Duration::of_seconds(-2 * 86_400 - 86_399).to_days());
    assert_eq!(1, Duration::of_seconds(3_661).to_hours());
    assert_eq!(-1, Duration::of_seconds(-3_661).to_hours());
    assert_eq!(1, Duration::of_seconds(90).to_minutes());
    assert_eq!(-1, Duration::of_seconds(-90).to_minutes());
}

#[test]
fn to_sub_units() {
    let duration = Duration::of_seconds_and_adjustment(2, 345_678_901);
    assert_eq!(2_345, duration.to_millis());
    assert_eq!(2_345_678_901, duration.to_nanos());

    let negative = Duration::of_millis(-1_500);
    assert_eq!(-1_500, negative.to_millis());
    assert_eq!(-1_500_000_000, negative.to_nanos());
}
