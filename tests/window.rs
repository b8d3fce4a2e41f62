use burnout_meter::window::{
    days_since_monday, days_since_monday_at, get_datetime, summary_range, summary_range_until_now,
    WindowError, EARLIEST, LATEST,
};
use time::format_description::well_known::Rfc3339;
use time::OffsetDateTime;

// 2024-01-01T00:00:00Z, a Monday.
const MONDAY_MIDNIGHT: i64 = 1_704_067_200;
const HOUR: i64 = 3_600;
const DAY: i64 = 86_400;

#[test]
fn test_get_start_and_end_dates() {
    let (start, end) = summary_range_until_now(30).unwrap();

    let start_datetime = OffsetDateTime::parse(start.as_str(), &Rfc3339).unwrap();
    let end_datetime = OffsetDateTime::parse(end.as_str(), &Rfc3339).unwrap();

    let start_date = start_datetime.date();
    let end_date = end_datetime.date();

    assert_eq!(start_date, end_date - time::Duration::days(30));
}

#[test]
fn monday_is_one() {
    for hour in 0..24 {
        assert_eq!(days_since_monday_at(MONDAY_MIDNIGHT + hour * HOUR, 0), Ok(1));
    }
    // 2024-01-01T20:00:00Z is 2024-01-02T01:00 at +5, a Tuesday.
    assert_eq!(days_since_monday_at(MONDAY_MIDNIGHT + 20 * HOUR, 5), Ok(2));
    // 2024-01-01T03:00:00Z is 2023-12-31T22:00 at -5, a Sunday.
    assert_eq!(days_since_monday_at(MONDAY_MIDNIGHT + 3 * HOUR, -5), Ok(7));
}

#[test]
fn sunday_is_seven() {
    for hour in 0..24 {
        assert_eq!(days_since_monday_at(MONDAY_MIDNIGHT - DAY + hour * HOUR, 0), Ok(7));
    }
    for offset in -23..=23 {
        let local_noon_sunday = MONDAY_MIDNIGHT - DAY + 12 * HOUR - offset as i64 * HOUR;
        assert_eq!(days_since_monday_at(local_noon_sunday, offset), Ok(7));
    }
}

#[test]
fn each_weekday_in_turn() {
    for day in 0..7 {
        assert_eq!(days_since_monday_at(MONDAY_MIDNIGHT + day * DAY + 1, 0), Ok(day + 1));
    }
    assert_eq!(days_since_monday_at(0, 0), Ok(4));
}

#[test]
fn bad_offset_is_refused() {
    assert_eq!(days_since_monday_at(MONDAY_MIDNIGHT, 24), Err(WindowError::InvalidConfiguration));
    assert_eq!(days_since_monday_at(MONDAY_MIDNIGHT, -24), Err(WindowError::InvalidConfiguration));
    assert_eq!(days_since_monday(100), Err(WindowError::InvalidConfiguration));
}

#[test]
fn today_is_in_the_week() {
    let n = days_since_monday(0).unwrap();
    assert!((1..=7).contains(&n));
}

#[test]
fn far_instants_are_out_of_range() {
    assert_eq!(days_since_monday_at(EARLIEST - 1, 0), Err(WindowError::OutOfRange));
    assert_eq!(days_since_monday_at(LATEST, 1), Err(WindowError::OutOfRange));
    assert_eq!(days_since_monday_at(LATEST, 0), Ok(5));
}

#[test]
fn datetimes_are_rfc3339() {
    assert_eq!(get_datetime(0).unwrap(), "1970-01-01T00:00:00Z");
    assert_eq!(get_datetime(MONDAY_MIDNIGHT + 3661).unwrap(), "2024-01-01T01:01:01Z");
    assert_eq!(get_datetime(EARLIEST).unwrap(), "0000-01-01T00:00:00Z");
    assert_eq!(get_datetime(LATEST).unwrap(), "9999-12-31T23:59:59Z");
    assert_eq!(get_datetime(EARLIEST - 1), None);
    assert_eq!(get_datetime(LATEST + 1), None);
}

#[test]
fn summary_range_spans_days() {
    let (start, end) = summary_range(MONDAY_MIDNIGHT, 30).unwrap();
    assert_eq!(start, "2023-12-02T00:00:00Z");
    assert_eq!(end, "2024-01-01T00:00:00Z");
    assert_eq!(summary_range(EARLIEST, 1), None);
}
