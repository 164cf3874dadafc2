use uptime::{decimal_string, friendly, render_json, uptime_parts};

#[test]
fn parts_of_3725_seconds() {
    assert_eq!(uptime_parts(3725), (1, 2, 5));
}

#[test]
fn parts_of_zero_seconds() {
    assert_eq!(uptime_parts(0), (0, 0, 0));
}

#[test]
fn parts_add_back_up() {
    for secs in [59u64, 60, 3599, 3600, 86399, 90061, 1_000_000_007, u64::MAX] {
        let (h, m, s) = uptime_parts(secs);
        assert!(m < 60 && s < 60);
        assert_eq!(h * 3600 + m * 60 + s, secs);
    }
}

#[test]
fn decimal_digits() {
    assert_eq!(decimal_string(0), "0");
    assert_eq!(decimal_string(7), "7");
    assert_eq!(decimal_string(10), "10");
    assert_eq!(decimal_string(1234567890), "1234567890");
    assert_eq!(decimal_string(u64::MAX), "18446744073709551615");
}

#[test]
fn friendly_two_hundred_hours() {
    let b = friendly(200);
    assert_eq!(b.days, 8);
    assert_eq!(b.weeks, 1);
    assert_eq!(b.months, 0);
    assert_eq!(b.years, 0);
    assert_eq!(b.centuries, 0);
    assert_eq!(b.friendly_format, "1 week, 1 day, 8 hours");
}

#[test]
fn friendly_one_day_is_not_counted() {
    let b = friendly(24);
    assert_eq!(b.days, 0);
    assert_eq!(b.weeks, 0);
    assert_eq!(b.friendly_format, "");
}

#[test]
fn friendly_under_a_day() {
    let b = friendly(5);
    assert_eq!(b.days, 0);
    assert_eq!(b.friendly_format, "");
}

#[test]
fn friendly_one_leftover_hour_stays_plural() {
    let b = friendly(25);
    assert_eq!(b.days, 1);
    assert_eq!(b.weeks, 0);
    assert_eq!(b.friendly_format, "1 hours");
}

#[test]
fn friendly_whole_weeks() {
    let b = friendly(24 * 14);
    assert_eq!(b.days, 14);
    assert_eq!(b.weeks, 2);
    assert_eq!(b.friendly_format, "2 weeks");
}

#[test]
fn friendly_plural_days() {
    let b = friendly(24 * 10 + 3);
    assert_eq!(b.days, 10);
    assert_eq!(b.weeks, 1);
    assert_eq!(b.friendly_format, "1 week, 3 days, 3 hours");
}

#[test]
fn friendly_long_uptime_counters() {
    let b = friendly(24 * 400);
    assert_eq!(b.days, 400);
    assert_eq!(b.weeks, 57);
    assert_eq!(b.months, 13);
    assert_eq!(b.years, 133);
    assert_eq!(b.centuries, 1);
    assert_eq!(b.friendly_format, "57 weeks, 1 day");
}

#[test]
fn friendly_days_below_a_year() {
    let b = friendly(24 * 364);
    assert_eq!(b.months, 12);
    assert_eq!(b.years, 0);
    assert_eq!(b.centuries, 0);
}

#[test]
fn structured_output_of_two_hundred_hours() {
    let text = render_json(&friendly(200));
    assert_eq!(
        text,
        "{\n    \"days\": 8,\n    \"weeks\": 1,\n    \"months\": 0,\n    \"years\": 0,\n    \"centuries\": 0,\n    \"friendly_format\": \"1 week, 1 day, 8 hours\"\n}"
    );
}
