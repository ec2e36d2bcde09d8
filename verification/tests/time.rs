use pta_generator::time::TxnTime;

#[test]
fn a_time_holds_its_fields() {
    let ts = TxnTime::new(2024, 2, 29, 21, 30, 5, 123_456_789, -18_000).unwrap();
    assert_eq!(ts.year(), 2024);
    assert_eq!(ts.month(), 2);
    assert_eq!(ts.day(), 29);
    assert_eq!(ts.hour(), 21);
    assert_eq!(ts.minute(), 30);
    assert_eq!(ts.second(), 5);
    assert_eq!(ts.subsec_nanosecond(), 123_456_789);
    assert_eq!(ts.offset_seconds(), -18_000);
}

#[test]
fn only_dates_of_the_calendar_are_times() {
    assert!(TxnTime::new(2023, 2, 29, 0, 0, 0, 0, 0).is_none());
    assert!(TxnTime::new(2024, 2, 29, 0, 0, 0, 0, 0).is_some());
    assert!(TxnTime::new(2024, 2, 30, 0, 0, 0, 0, 0).is_none());
    assert!(TxnTime::new(1900, 2, 29, 0, 0, 0, 0, 0).is_none());
    assert!(TxnTime::new(2000, 2, 29, 0, 0, 0, 0, 0).is_some());
    assert!(TxnTime::new(-4, 2, 29, 0, 0, 0, 0, 0).is_some());
    assert!(TxnTime::new(-100, 2, 29, 0, 0, 0, 0, 0).is_none());
    assert!(TxnTime::new(-400, 2, 29, 0, 0, 0, 0, 0).is_some());
    assert!(TxnTime::new(0, 2, 29, 0, 0, 0, 0, 0).is_some());
    assert!(TxnTime::new(2024, 4, 31, 0, 0, 0, 0, 0).is_none());
    assert!(TxnTime::new(2024, 4, 30, 0, 0, 0, 0, 0).is_some());
    assert!(TxnTime::new(2024, 12, 31, 0, 0, 0, 0, 0).is_some());
    assert!(TxnTime::new(2024, 12, 32, 0, 0, 0, 0, 0).is_none());
    assert!(TxnTime::new(2024, 0, 1, 0, 0, 0, 0, 0).is_none());
    assert!(TxnTime::new(2024, 13, 1, 0, 0, 0, 0, 0).is_none());
    assert!(TxnTime::new(2024, 1, 0, 0, 0, 0, 0, 0).is_none());
    assert!(TxnTime::new(10_000, 1, 1, 0, 0, 0, 0, 0).is_none());
    assert!(TxnTime::new(9999, 1, 1, 0, 0, 0, 0, 0).is_some());
    assert!(TxnTime::new(-9999, 1, 1, 0, 0, 0, 0, 0).is_some());
    assert!(TxnTime::new(-10_000, 1, 1, 0, 0, 0, 0, 0).is_none());
}

#[test]
fn only_times_of_the_clock_are_times() {
    assert!(TxnTime::new(2024, 1, 1, 23, 59, 59, 999_999_999, 0).is_some());
    assert!(TxnTime::new(2024, 1, 1, 24, 0, 0, 0, 0).is_none());
    assert!(TxnTime::new(2024, 1, 1, 0, 60, 0, 0, 0).is_none());
    assert!(TxnTime::new(2024, 1, 1, 0, 0, 60, 0, 0).is_none());
    assert!(TxnTime::new(2024, 1, 1, 0, 0, 0, 1_000_000_000, 0).is_none());
    assert!(TxnTime::new(2024, 1, 1, 0, 0, 0, 0, 93_599).is_some());
    assert!(TxnTime::new(2024, 1, 1, 0, 0, 0, 0, 93_600).is_none());
    assert!(TxnTime::new(2024, 1, 1, 0, 0, 0, 0, -93_599).is_some());
    assert!(TxnTime::new(2024, 1, 1, 0, 0, 0, 0, -93_600).is_none());
}

#[test]
fn what_is_a_time_here_is_one_for_jiff() {
    for (year, month, day) in
        [(2023, 2, 29), (2024, 2, 29), (1900, 2, 29), (-4, 2, 29), (-100, 2, 29), (2024, 4, 31), (2024, 6, 30)]
    {
        let here = TxnTime::new(year, month, day, 12, 0, 0, 0, 0).is_some();
        let there = jiff::civil::Date::new(year, month as i8, day as i8).is_ok();
        assert_eq!(here, there, "{}-{}-{}", year, month, day);
    }
}
