use timespan::Duration;

#[test]
fn display_zero() {
    assert_eq!("PT0S", Duration::zero().to_iso_string());
}

#[test]
fn display_literal_scenarios() {
    assert_eq!("PT0S", Duration::of_seconds_and_adjustment(0, 0).to_iso_string());
    assert_eq!("PT0.000000001S", Duration::of_seconds_and_adjustment(0, 1).to_iso_string());
    assert_eq!(
        "PT-1M-0.1S",
        Duration::of_seconds_and_adjustment(-60, -100_000_000).to_iso_string()
    );
    assert_eq!("PT1H1M1S", Duration::of_seconds_and_adjustment(3_661, 0).to_iso_string());
    assert_eq!("PT-0.1S", Duration::of_seconds_and_adjustment(-1, 900_000_000).to_iso_string());
}

#[test]
fn display_fraction_digits() {
    assert_eq!("PT0.1S", Duration::of_seconds_and_adjustment(0, 100_000_000).to_iso_string());
    assert_eq!("PT0.12S", Duration::of_seconds_and_adjustment(0, 120_000_000).to_iso_string());
    assert_eq!("PT0.123S", Duration::of_seconds_and_adjustment(0, 123_000_000).to_iso_string());
    assert_eq!("PT0.001S", Duration::of_seconds_and_adjustment(0, 1_000_000).to_iso_string());
    assert_eq!(
        "PT0.123456789S",
        Duration::of_seconds_and_adjustment(0, 123_456_789).to_iso_string()
    );
}

#[test]
fn display_whole_units() {
    assert_eq!("PT1S", Duration::of_seconds_and_adjustment(1, 0).to_iso_string());
    assert_eq!("PT59S", Duration::of_seconds_and_adjustment(59, 0).to_iso_string());
    assert_eq!("PT1M", Duration::of_seconds_and_adjustment(60, 0).to_iso_string());
    assert_eq!("PT1M1S", Duration::of_seconds_and_adjustment(61, 0).to_iso_string());
    assert_eq!("PT59M59S", Duration::of_seconds_and_adjustment(3_599, 0).to_iso_string());
    assert_eq!("PT1H", Duration::of_seconds_and_adjustment(3_600, 0).to_iso_string());
    assert_eq!("PT1H1S", Duration::of_seconds_and_adjustment(3_601, 0).to_iso_string());
    assert_eq!("PT23H59M59S", Duration::of_seconds_and_adjustment(86_399, 0).to_iso_string());
    assert_eq!("PT24H", Duration::of_seconds_and_adjustment(86_400, 0).to_iso_string());
}

#[test]
fn display_negative() {
    assert_eq!("PT-1S", Duration::of_seconds_and_adjustment(-1, 0).to_iso_string());
    assert_eq!("PT-0.999999S", Duration::of_seconds_and_adjustment(-1, 1_000).to_iso_string());
    assert_eq!(
        "PT-59.9S",
        Duration::of_seconds_and_adjustment(-60, 100_000_000).to_iso_string()
    );
    assert_eq!(
        "PT-59.9S",
        Duration::of_seconds_and_adjustment(-59, -900_000_000).to_iso_string()
    );
    assert_eq!("PT-1M", Duration::of_seconds_and_adjustment(-60, 0).to_iso_string());
    assert_eq!("PT-1H-1M-1S", Duration::of_seconds_and_adjustment(-3_661, 0).to_iso_string());
}

#[test]
fn display_extremes() {
    assert_eq!(
        format!("PT{}H{}M{}S", i64::MAX / 3_600, (i64::MAX % 3_600) / 60, i64::MAX % 60),
        Duration::of_seconds_and_adjustment(i64::MAX, 0).to_iso_string()
    );
    assert_eq!(
        format!("PT{}H{}M{}S", i64::MIN / 3_600, (i64::MIN % 3_600) / 60, i64::MIN % 60),
        Duration::of_seconds_and_adjustment(i64::MIN, 0).to_iso_string()
    );
}
