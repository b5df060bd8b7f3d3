use service_poller::stamp::{RoundStamp, DATETIME_FORMAT};

#[test]
fn epoch_is_dated() {
    let stamp = RoundStamp::at(0).unwrap();
    assert_eq!(stamp.timestamp, 0);
    assert_eq!(stamp.datetime, "1970-01-01 00:00:00");
}

#[test]
fn new_year_2023() {
    let stamp = RoundStamp::at(1672531200).unwrap();
    assert_eq!(stamp.timestamp, 1672531200);
    assert_eq!(stamp.datetime, "2023-01-01 00:00:00");
    assert_eq!(RoundStamp::at(1672531199).unwrap().datetime, "2022-12-31 23:59:59");
}

#[test]
fn leap_day() {
    assert_eq!(RoundStamp::at(1709210096).unwrap().datetime, "2024-02-29 12:34:56");
}

#[test]
fn seconds_beyond_the_calendar_have_no_stamp() {
    assert_eq!(RoundStamp::at(u64::MAX), None);
    assert_eq!(RoundStamp::at(i64::MAX as u64), None);
    assert_eq!(RoundStamp::at(i64::MAX as u64 + 1), None);
}

#[test]
fn format_is_the_documented_one() {
    assert_eq!(DATETIME_FORMAT, "%Y-%m-%d %H:%M:%S");
}
