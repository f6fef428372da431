use cosmic_screenshot::timestamp::{ClockReading, Timestamp};

#[test]
fn filename_is_zero_padded() {
    let t = Timestamp::new(2024, 3, 7, 9, 5, 1).unwrap();
    assert_eq!(t.filename(), "Screenshot_2024-03-07_09-05-01.png");
}

#[test]
fn filename_of_latest_moment() {
    let t = Timestamp::new(9999, 12, 31, 23, 59, 59).unwrap();
    assert_eq!(t.filename(), "Screenshot_9999-12-31_23-59-59.png");
}

#[test]
fn filename_of_earliest_moment() {
    let t = Timestamp::new(0, 1, 1, 0, 0, 0).unwrap();
    assert_eq!(t.filename(), "Screenshot_0000-01-01_00-00-00.png");
}

#[test]
fn filename_has_fixed_length() {
    let a = Timestamp::new(7, 1, 1, 0, 0, 0).unwrap().filename();
    let b = Timestamp::new(2031, 11, 30, 17, 42, 58).unwrap().filename();
    assert_eq!(a.len(), 34);
    assert_eq!(b.len(), 34);
}

#[test]
fn same_second_gives_same_name() {
    let a = Timestamp::new(2025, 6, 1, 12, 0, 0).unwrap();
    let b = Timestamp::new(2025, 6, 1, 12, 0, 0).unwrap();
    assert_eq!(a.filename(), b.filename());
}

#[test]
fn timestamp_rejects_fields_out_of_range() {
    assert!(Timestamp::new(-1, 1, 1, 0, 0, 0).is_none());
    assert!(Timestamp::new(10000, 1, 1, 0, 0, 0).is_none());
    assert!(Timestamp::new(2024, 0, 1, 0, 0, 0).is_none());
    assert!(Timestamp::new(2024, 13, 1, 0, 0, 0).is_none());
    assert!(Timestamp::new(2024, 1, 0, 0, 0, 0).is_none());
    assert!(Timestamp::new(2024, 1, 32, 0, 0, 0).is_none());
    assert!(Timestamp::new(2024, 1, 1, 24, 0, 0).is_none());
    assert!(Timestamp::new(2024, 1, 1, 0, 60, 0).is_none());
    assert!(Timestamp::new(2024, 1, 1, 0, 0, 60).is_none());
}

#[test]
fn timestamp_keeps_its_fields() {
    let t = Timestamp::new(2024, 2, 29, 13, 14, 15).unwrap();
    assert_eq!(
        t,
        Timestamp { year: 2024, month: 2, day: 29, hour: 13, minute: 14, second: 15 }
    );
}

#[test]
fn reading_converts_to_timestamp() {
    let reading = ClockReading { year: 2026, month: 10, day: 27, hour: 8, minute: 30, second: 0 };
    let t = Timestamp::from_reading(reading).unwrap();
    assert_eq!(t.filename(), "Screenshot_2026-10-27_08-30-00.png");
    let far = ClockReading { year: 12000, month: 10, day: 27, hour: 8, minute: 30, second: 0 };
    assert!(Timestamp::from_reading(far).is_none());
}

#[test]
fn clock_gives_a_plausible_timestamp() {
    let t = Timestamp::now().unwrap();
    assert!(t.year >= 2024 && t.year <= 9999);
    assert!(t.month >= 1 && t.month <= 12);
    assert!(t.day >= 1 && t.day <= 31);
    assert!(t.hour <= 23 && t.minute <= 59 && t.second <= 59);
    assert_eq!(t.filename().len(), 34);
}
