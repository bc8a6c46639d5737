use indicators::calendar::{days_to_ymd, format_timestamp, is_leap, session_day, split_clock, SessionDay};

#[test]
fn leap_years() {
    assert!(is_leap(2000));
    assert!(is_leap(2024));
    assert!(!is_leap(1900));
    assert!(!is_leap(2023));
}

#[test]
fn epoch_day_zero_is_new_year_1970() {
    assert_eq!(days_to_ymd(0), (1970, 1, 1));
    assert_eq!(days_to_ymd(31), (1970, 2, 1));
    assert_eq!(days_to_ymd(365), (1971, 1, 1));
}

#[test]
fn leap_day_and_year_end() {
    // 2000-02-29 is day 11016; 2000-12-31 is day 11322.
    assert_eq!(days_to_ymd(11016), (2000, 2, 29));
    assert_eq!(days_to_ymd(11322), (2000, 12, 31));
    assert_eq!(days_to_ymd(19723), (2024, 1, 1));
}

#[test]
fn clock_split_and_timestamp() {
    assert_eq!(split_clock(86399), (0, 23, 59, 59));
    assert_eq!(split_clock(1_725_029_869), (19965, 14, 57, 49));
    assert_eq!(format_timestamp(0), "1970-01-01 00:00:00");
    assert_eq!(format_timestamp(1_725_029_869), "2024-08-30 14:57:49");
}

#[test]
fn session_days_follow_utc_midnight() {
    assert_eq!(session_day(0), Some(0));
    assert_eq!(session_day(86_399_999), Some(0));
    assert_eq!(session_day(86_400_000), Some(1));
    assert_eq!(session_day(-1), Some(-1));
    assert_eq!(session_day(i64::MAX), None);
    assert_eq!(session_day(8_210_266_876_799_999), Some(95_026_236));
    assert_eq!(session_day(8_210_266_876_800_000), None);
    assert_eq!(session_day(-8_334_601_228_800_000), Some(-96_465_292));
    assert_eq!(session_day(-8_334_601_228_800_001), None);
}

#[test]
fn session_rolls_only_on_new_day() {
    let mut s = SessionDay::new();
    assert_eq!(s.day(), None);
    assert!(s.roll(5));
    assert!(!s.roll(5));
    assert!(s.roll(6));
    assert_eq!(s.day(), Some(6));
}
