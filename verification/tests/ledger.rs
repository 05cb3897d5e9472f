use clicker_game::ledger::{
    append_timer_text, current_time, time_between, timer_text, Elapsed, Timestamp, MAX_SECONDS,
    MIN_SECONDS, NANOS_PER_MILLI, NANOS_PER_SECOND,
};

#[test]
fn the_units_of_time() {
    assert_eq!(NANOS_PER_SECOND, 1_000_000_000);
    assert_eq!(NANOS_PER_MILLI, 1_000_000);
}

#[test]
fn the_ends_of_the_calendar_are_those_of_the_clock() {
    assert_eq!(MIN_SECONDS, chrono::DateTime::<chrono::Utc>::MIN_UTC.timestamp());
    assert_eq!(MAX_SECONDS, chrono::DateTime::<chrono::Utc>::MAX_UTC.timestamp());
    assert!(chrono::DateTime::from_timestamp(MIN_SECONDS, 0).is_some());
    assert!(chrono::DateTime::from_timestamp(MAX_SECONDS, 999_999_999).is_some());
    assert!(chrono::DateTime::from_timestamp(MIN_SECONDS - 1, 999_999_999).is_none());
    assert!(chrono::DateTime::from_timestamp(MAX_SECONDS + 1, 0).is_none());
}

#[test]
fn a_reading_lies_within_the_calendar() {
    assert_eq!(Timestamp::new(0, 0), Some(Timestamp { secs: 0, nanos: 0 }));
    assert_eq!(
        Timestamp::new(1_793_000_000, 999_999_999),
        Some(Timestamp { secs: 1_793_000_000, nanos: 999_999_999 })
    );
    assert_eq!(Timestamp::new(-1, 5), Some(Timestamp { secs: -1, nanos: 5 }));
    assert_eq!(
        Timestamp::new(MAX_SECONDS, 999_999_999),
        Some(Timestamp { secs: MAX_SECONDS, nanos: 999_999_999 })
    );
    assert_eq!(Timestamp::new(MIN_SECONDS, 0), Some(Timestamp { secs: MIN_SECONDS, nanos: 0 }));
    assert_eq!(Timestamp::new(MAX_SECONDS + 1, 0), None);
    assert_eq!(Timestamp::new(MIN_SECONDS - 1, 0), None);
    assert_eq!(Timestamp::new(0, 1_000_000_000), None);
    assert_eq!(Timestamp::new(59, 1_500_000_000), None);
    assert_eq!(Timestamp::new(i64::MAX, u32::MAX), None);
    assert_eq!(Timestamp::new(i64::MIN, 0), None);
}

#[test]
fn a_reading_can_be_checked() {
    assert!(Timestamp { secs: 0, nanos: 0 }.validate());
    assert!(Timestamp { secs: MAX_SECONDS, nanos: 999_999_999 }.validate());
    assert!(Timestamp { secs: MIN_SECONDS, nanos: 0 }.validate());
    assert!(!Timestamp { secs: MAX_SECONDS + 1, nanos: 0 }.validate());
    assert!(!Timestamp { secs: MIN_SECONDS - 1, nanos: 0 }.validate());
    assert!(!Timestamp { secs: 0, nanos: 1_000_000_000 }.validate());
}

#[test]
fn the_time_between_two_readings() {
    let start = Timestamp { secs: 10, nanos: 500_000_000 };
    let end = Timestamp { secs: 12, nanos: 45_000_000 };
    assert_eq!(time_between(start, end), Elapsed { seconds: 1, milliseconds: 1545 });
}

#[test]
fn the_milliseconds_are_the_whole_time_and_not_what_is_left_of_a_second() {
    let start = Timestamp { secs: 3600, nanos: 0 };
    let end = Timestamp { secs: 3612, nanos: 345_000_000 };
    assert_eq!(time_between(start, end), Elapsed { seconds: 12, milliseconds: 12_345 });
    let later = Timestamp { secs: 3602, nanos: 500_000_000 };
    assert_eq!(time_between(start, later), Elapsed { seconds: 2, milliseconds: 2500 });
}

#[test]
fn no_time_between_a_reading_and_itself() {
    let at = Timestamp { secs: 1_793_000_000, nanos: 123_456_789 };
    assert_eq!(time_between(at, at), Elapsed { seconds: 0, milliseconds: 0 });
}

#[test]
fn parts_of_a_unit_are_dropped() {
    let start = Timestamp { secs: 100, nanos: 0 };
    assert_eq!(
        time_between(start, Timestamp { secs: 100, nanos: 999_999 }),
        Elapsed { seconds: 0, milliseconds: 0 }
    );
    assert_eq!(
        time_between(start, Timestamp { secs: 100, nanos: 1_000_000 }),
        Elapsed { seconds: 0, milliseconds: 1 }
    );
    assert_eq!(
        time_between(start, Timestamp { secs: 100, nanos: 999_999_999 }),
        Elapsed { seconds: 0, milliseconds: 999 }
    );
    assert_eq!(
        time_between(start, Timestamp { secs: 101, nanos: 0 }),
        Elapsed { seconds: 1, milliseconds: 1000 }
    );
}

#[test]
fn an_earlier_end_gives_a_negative_time_rounded_towards_zero() {
    let start = Timestamp { secs: 12, nanos: 45_000_000 };
    let end = Timestamp { secs: 10, nanos: 500_000_000 };
    assert_eq!(time_between(start, end), Elapsed { seconds: -1, milliseconds: -1545 });
    assert_eq!(
        time_between(Timestamp { secs: 100, nanos: 999_999 }, Timestamp { secs: 100, nanos: 0 }),
        Elapsed { seconds: 0, milliseconds: 0 }
    );
    assert_eq!(
        time_between(Timestamp { secs: 100, nanos: 1_500_000 }, Timestamp { secs: 100, nanos: 0 }),
        Elapsed { seconds: 0, milliseconds: -1 }
    );
    assert_eq!(
        time_between(Timestamp { secs: 5, nanos: 1 }, Timestamp { secs: 3, nanos: 0 }),
        Elapsed { seconds: -2, milliseconds: -2000 }
    );
}

#[test]
fn a_reading_does_not_start_over_at_midnight() {
    // 2026-10-28 23:59:50.25 and 2026-10-29 00:00:02.75 in universal time.
    let evening = Timestamp { secs: 1_793_231_990, nanos: 250_000_000 };
    let morning = Timestamp { secs: 1_793_232_002, nanos: 750_000_000 };
    assert_eq!(evening.secs % 86_400, 86_390);
    assert_eq!(morning.secs % 86_400, 2);
    assert_eq!(time_between(evening, morning), Elapsed { seconds: 12, milliseconds: 12_500 });
    assert_eq!(time_between(morning, evening), Elapsed { seconds: -12, milliseconds: -12_500 });
}

#[test]
fn days_and_years_between_two_readings() {
    let start = Timestamp { secs: 0, nanos: 0 };
    assert_eq!(
        time_between(start, Timestamp { secs: 86_400, nanos: 0 }),
        Elapsed { seconds: 86_400, milliseconds: 86_400_000 }
    );
    assert_eq!(
        time_between(start, Timestamp { secs: 1_793_232_002, nanos: 750_000_000 }),
        Elapsed { seconds: 1_793_232_002, milliseconds: 1_793_232_002_750 }
    );
    assert_eq!(
        time_between(start, Timestamp { secs: -86_401, nanos: 999_000_000 }),
        Elapsed { seconds: -86_400, milliseconds: -86_400_001 }
    );
    // Across the leap day of 2024 and the turn of the year 2000.
    assert_eq!(
        time_between(
            Timestamp { secs: 1_709_164_799, nanos: 0 },
            Timestamp { secs: 1_709_251_200, nanos: 0 }
        ),
        Elapsed { seconds: 86_401, milliseconds: 86_401_000 }
    );
    assert_eq!(
        time_between(
            Timestamp { secs: 946_684_799, nanos: 999_999_999 },
            Timestamp { secs: 946_684_800, nanos: 0 }
        ),
        Elapsed { seconds: 0, milliseconds: 0 }
    );
}

#[test]
fn the_longest_times_of_the_calendar() {
    let first = Timestamp { secs: MIN_SECONDS, nanos: 0 };
    let last = Timestamp { secs: MAX_SECONDS, nanos: 999_999_999 };
    assert_eq!(
        time_between(first, last),
        Elapsed { seconds: 16_544_868_105_599, milliseconds: 16_544_868_105_599_999 }
    );
    assert_eq!(
        time_between(last, first),
        Elapsed { seconds: -16_544_868_105_599, milliseconds: -16_544_868_105_599_999 }
    );
}

#[test]
fn the_time_between_agrees_with_the_clock_s_own_arithmetic() {
    let mut secs: i64 = -5_000_000_000;
    let mut nanos: u32 = 0;
    let origin = Timestamp { secs: 1_000_000_007, nanos: 123_456_789 };
    for _ in 0..2000 {
        let at = Timestamp { secs, nanos };
        let span = (secs as i128 - origin.secs as i128) * 1_000_000_000
            + (nanos as i128 - origin.nanos as i128);
        let elapsed = time_between(origin, at);
        assert_eq!(elapsed.seconds as i128, span / 1_000_000_000);
        assert_eq!(elapsed.milliseconds as i128, span / 1_000_000);
        assert!(elapsed.validate());
        secs += 7_654_321;
        nanos = (nanos + 370_370_371) % 1_000_000_000;
    }
}

#[test]
fn the_fields_of_a_time_agree_when_the_seconds_are_those_of_the_milliseconds() {
    assert!(Elapsed { seconds: 0, milliseconds: 0 }.validate());
    assert!(Elapsed { seconds: 2, milliseconds: 2500 }.validate());
    assert!(Elapsed { seconds: 0, milliseconds: 999 }.validate());
    assert!(Elapsed { seconds: -2, milliseconds: -2999 }.validate());
    assert!(Elapsed { seconds: 0, milliseconds: -999 }.validate());
    assert!(!Elapsed { seconds: 1, milliseconds: 999 }.validate());
    assert!(!Elapsed { seconds: 2, milliseconds: 3000 }.validate());
    assert!(!Elapsed { seconds: -3, milliseconds: -2999 }.validate());
    assert!(!Elapsed { seconds: 2, milliseconds: -2500 }.validate());
    assert!(Elapsed { seconds: i64::MAX / 1000, milliseconds: i64::MAX }.validate());
    assert!(Elapsed { seconds: i64::MIN / 1000, milliseconds: i64::MIN }.validate());
}

#[test]
fn a_time_is_shown_as_seconds_dot_what_is_left_in_milliseconds() {
    assert_eq!(timer_text(Elapsed { seconds: 2, milliseconds: 2500 }), "2.500");
    assert_eq!(timer_text(Elapsed { seconds: 2, milliseconds: 2050 }), "2.50");
    assert_eq!(timer_text(Elapsed { seconds: 2, milliseconds: 2005 }), "2.5");
    assert_eq!(timer_text(Elapsed { seconds: 2, milliseconds: 2000 }), "2.0");
    assert_eq!(timer_text(Elapsed { seconds: 0, milliseconds: 250 }), "0.250");
    assert_eq!(timer_text(Elapsed { seconds: 0, milliseconds: 0 }), "0.0");
    assert_eq!(timer_text(Elapsed { seconds: 0, milliseconds: 45 }), "0.45");
    assert_eq!(timer_text(Elapsed { seconds: 1, milliseconds: 1545 }), "1.545");
    assert_eq!(timer_text(Elapsed { seconds: 12, milliseconds: 12_345 }), "12.345");
    assert_eq!(timer_text(Elapsed { seconds: 12, milliseconds: 12_999 }), "12.999");
    assert_eq!(timer_text(Elapsed { seconds: 3600, milliseconds: 3_600_001 }), "3600.1");
}

#[test]
fn a_negative_time_is_shown_with_a_minus_sign() {
    assert_eq!(timer_text(Elapsed { seconds: -1, milliseconds: -1545 }), "-1.545");
    assert_eq!(timer_text(Elapsed { seconds: -2, milliseconds: -2500 }), "-2.500");
    assert_eq!(timer_text(Elapsed { seconds: 0, milliseconds: -250 }), "-0.250");
    assert_eq!(timer_text(Elapsed { seconds: 0, milliseconds: -1 }), "-0.1");
    assert_eq!(timer_text(Elapsed { seconds: -7, milliseconds: -7000 }), "-7.0");
}

#[test]
fn the_longest_times_are_shown_in_full() {
    assert_eq!(
        timer_text(Elapsed { seconds: i64::MAX / 1000, milliseconds: i64::MAX }),
        "9223372036854775.807"
    );
    assert_eq!(
        timer_text(Elapsed { seconds: i64::MIN / 1000, milliseconds: i64::MIN }),
        "-9223372036854775.808"
    );
}

#[test]
fn the_time_is_appended_to_what_is_there() {
    let mut text = String::from("after ");
    append_timer_text(&mut text, Elapsed { seconds: 2, milliseconds: 2050 });
    assert_eq!(text, "after 2.50");
    append_timer_text(&mut text, Elapsed { seconds: 0, milliseconds: -3 });
    assert_eq!(text, "after 2.50-0.3");
}

#[test]
fn the_time_of_two_readings_as_it_is_shown() {
    let start = Timestamp { secs: 0, nanos: 0 };
    assert_eq!(timer_text(time_between(start, Timestamp { secs: 2, nanos: 500_000_000 })), "2.500");
    assert_eq!(timer_text(time_between(start, Timestamp { secs: 2, nanos: 50_000_000 })), "2.50");
    assert_eq!(timer_text(time_between(start, Timestamp { secs: 0, nanos: 250_000_000 })), "0.250");
    assert_eq!(timer_text(time_between(start, Timestamp { secs: 0, nanos: 250_999_999 })), "0.250");
}

#[test]
fn the_clock_gives_a_valid_reading() {
    for _ in 0..100 {
        let now = current_time();
        assert!(now.validate());
        assert!(now.nanos < 1_000_000_000);
        assert_eq!(Timestamp::new(now.secs, now.nanos), Some(now));
        // Later than the start of 2020.
        assert!(now.secs > 1_577_836_800);
    }
}

#[test]
fn the_clock_moves() {
    let first = current_time();
    let mut later = current_time();
    let mut tries = 0;
    while later == first && tries < 10_000_000 {
        later = current_time();
        tries += 1;
    }
    assert_ne!(later, first);
    assert!(time_between(first, later).milliseconds >= 0);
}
