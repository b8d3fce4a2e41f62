use vstd::prelude::*;

verus! {

/// Seconds in a day.
pub const SECONDS_PER_DAY: i64 = 86_400;

/// Seconds in an hour.
pub const SECONDS_PER_HOUR: i64 = 3_600;

/// The first instant written with a four-digit year: 0000-01-01T00:00:00Z,
/// in seconds since 1970-01-01T00:00:00Z.
pub const EARLIEST: i64 = -62_167_219_200;

/// The last instant written with a four-digit year: 9999-12-31T23:59:59Z.
pub const LATEST: i64 = 253_402_300_799;

/// Why no window could be computed.
#[derive(Clone, Copy, Debug, PartialEq, Eq, Structural)]
pub enum WindowError {
    /// The offset from UTC is not a whole number of hours in `-23..=23`.
    InvalidConfiguration,
    /// The instant, or its local time, lies outside years 0 to 9999.
    OutOfRange,
}

/// An offset in hours that a local time may have from UTC.
pub open spec fn offset_is_valid(offset_hours: int) -> bool {
    -23 <= offset_hours <= 23
}

/// An instant within years 0 to 9999.
pub open spec fn in_calendar(unix_seconds: int) -> bool {
    EARLIEST <= unix_seconds <= LATEST
}

/// The local time of an instant at an offset, in seconds since the epoch.
pub open spec fn local_seconds(unix_seconds: int, offset_hours: int) -> int {
    unix_seconds + SECONDS_PER_HOUR * offset_hours
}

/// The local day of an instant at an offset, counted from 1970-01-01 (day 0).
pub open spec fn local_day(unix_seconds: int, offset_hours: int) -> int {
    local_seconds(unix_seconds, offset_hours) / (SECONDS_PER_DAY as int)
}

/// The weekday of a day, Monday being 1 and Sunday 7; 1970-01-01 was a
/// Thursday.
pub open spec fn weekday_from_monday(day: int) -> int {
    (day + 3) % 7 + 1
}

/// 1970-01-05 (day 4) was a Monday.
pub open spec fn is_monday(day: int) -> bool {
    day % 7 == 4
}

/// 1970-01-04 (day 3) was a Sunday.
pub open spec fn is_sunday(day: int) -> bool {
    day % 7 == 3
}

/// What `days_since_monday_at` returns: the days from the last Monday to
/// the local day, both counted.
pub open spec fn days_since_monday_result(unix_seconds: int, offset_hours: int) -> Result<
    int,
    WindowError,
> {
    if !offset_is_valid(offset_hours) {
        Err(WindowError::InvalidConfiguration)
    } else if !in_calendar(unix_seconds) || !in_calendar(local_seconds(unix_seconds, offset_hours)) {
        Err(WindowError::OutOfRange)
    } else {
        Ok(weekday_from_monday(local_day(unix_seconds, offset_hours)))
    }
}

/// The RFC 3339 text of an instant, as the `time` crate writes it.
pub uninterp spec fn rfc3339_text(unix_seconds: int) -> Seq<char>;

/// Relies on `time::OffsetDateTime::now_utc` and `unix_timestamp`: the
/// current instant in whole seconds since 1970-01-01T00:00:00Z. Nothing is
/// known of its value.
#[verifier::external_body]
fn now_unix_timestamp() -> (r: i64) {
    time::OffsetDateTime::now_utc().unix_timestamp()
}

/// Relies on `time::UtcOffset::from_hms`, `OffsetDateTime::from_unix_timestamp`,
/// `to_offset`, `weekday` and `Weekday::number_from_monday`: the weekday of
/// the local date of an instant at a whole-hour offset. Neither conversion
/// fails, nor does `to_offset` panic, for an offset in `-25..=25` and
/// instants whose UTC and local times lie within years -9999 to 9999.
#[verifier::external_body]
fn weekday_number(unix_seconds: i64, offset_hours: i8) -> (r: u8)
    requires
        offset_is_valid(offset_hours as int),
        in_calendar(unix_seconds as int),
        in_calendar(local_seconds(unix_seconds as int, offset_hours as int)),
    ensures
        r == weekday_from_monday(local_day(unix_seconds as int, offset_hours as int)),
{
    let offset = time::UtcOffset::from_hms(offset_hours, 0, 0).unwrap();
    let utc = time::OffsetDateTime::from_unix_timestamp(unix_seconds).unwrap();
    utc.to_offset(offset).weekday().number_from_monday()
}

/// Relies on `time::OffsetDateTime::from_unix_timestamp` and `format` with
/// the `Rfc3339` description, which succeed for UTC instants of years 0 to
/// 9999; the text depends on the instant alone.
#[verifier::external_body]
fn format_rfc3339(unix_seconds: i64) -> (r: String)
    requires
        in_calendar(unix_seconds as int),
    ensures
        r@ == rfc3339_text(unix_seconds as int),
{
    let utc = time::OffsetDateTime::from_unix_timestamp(unix_seconds).unwrap();
    utc.format(&time::format_description::well_known::Rfc3339).unwrap()
}

/// The number of days from the most recent Monday to the local day of
/// `unix_seconds` at `offset_hours` from UTC, both counted: 1 on a Monday,
/// 7 on a Sunday.
pub fn days_since_monday_at(unix_seconds: i64, offset_hours: i8) -> (r: Result<i64, WindowError>)
    ensures
        r matches Ok(n) ==> days_since_monday_result(unix_seconds as int, offset_hours as int)
            == Ok::<int, WindowError>(n as int),
        r matches Err(e) ==> days_since_monday_result(unix_seconds as int, offset_hours as int)
            == Err::<int, WindowError>(e),
{
    if offset_hours < -23 || offset_hours > 23 {
        return Err(WindowError::InvalidConfiguration);
    }
    let local = unix_seconds as i128 + (SECONDS_PER_HOUR as i128) * (offset_hours as i128);
    if unix_seconds < EARLIEST || unix_seconds > LATEST || local < EARLIEST as i128 || local
        > LATEST as i128 {
        return Err(WindowError::OutOfRange);
    }
    let weekday = weekday_number(unix_seconds, offset_hours);
    Ok(weekday as i64)
}

/// The number of days from the most recent Monday to today, both counted,
/// where today is the local date now at `offset_hours` from UTC.
pub fn days_since_monday(offset_hours: i8) -> (r: Result<i64, WindowError>)
    ensures
        r == Err::<i64, WindowError>(WindowError::InvalidConfiguration) <==> !offset_is_valid(
            offset_hours as int,
        ),
        r matches Ok(n) ==> 1 <= n <= 7,
        r matches Ok(n) ==> exists|now: int|
            days_since_monday_result(now, offset_hours as int) == Ok::<int, WindowError>(n as int),
        r matches Err(e) ==> exists|now: int|
            days_since_monday_result(now, offset_hours as int) == Err::<int, WindowError>(e),
{
    let now = now_unix_timestamp();
    let r = days_since_monday_at(now, offset_hours);
    proof {
        let t = now as int;
        assert(r matches Ok(n) ==> days_since_monday_result(t, offset_hours as int) == Ok::<
            int,
            WindowError,
        >(n as int));
        assert(r matches Err(e) ==> days_since_monday_result(t, offset_hours as int) == Err::<
            int,
            WindowError,
        >(e));
    }
    proof {
        if r is Ok {
            let d = local_day(now as int, offset_hours as int);
            assert(0 <= (d + 3) % 7 < 7);
        }
    }
    r
}

/// The RFC 3339 text of an instant, or `None` outside years 0 to 9999.
pub fn get_datetime(unix_seconds: i64) -> (r: Option<String>)
    ensures
        r is Some <==> in_calendar(unix_seconds as int),
        r matches Some(s) ==> s@ == rfc3339_text(unix_seconds as int),
{
    if unix_seconds < EARLIEST || unix_seconds > LATEST {
        None
    } else {
        Some(format_rfc3339(unix_seconds))
    }
}

/// The start and end of a window of `days` days that ends at `now`, as RFC
/// 3339 texts; `None` when either end lies outside years 0 to 9999.
pub fn summary_range(now: i64, days: i64) -> (r: Option<(String, String)>)
    ensures
        r is Some <==> in_calendar(now as int) && in_calendar(now - SECONDS_PER_DAY * days),
        r matches Some((start, end)) ==> start@ == rfc3339_text(now - SECONDS_PER_DAY * days)
            && end@ == rfc3339_text(now as int),
{
    assert(-0x1_0000_0000_0000_0000_0000 < 86_400 * days < 0x1_0000_0000_0000_0000_0000)
        by (nonlinear_arith)
        requires
            -0x8000_0000_0000_0000 <= days < 0x8000_0000_0000_0000,
    ;
    let span = (SECONDS_PER_DAY as i128) * (days as i128);
    let start = now as i128 - span;
    if start < EARLIEST as i128 || start > LATEST as i128 {
        return None;
    }
    let start_text = get_datetime(start as i64);
    let end_text = get_datetime(now);
    match (start_text, end_text) {
        (Some(s), Some(e)) => Some((s, e)),
        _ => None,
    }
}

/// The start and end of the window of `days` days that ends now, as in
/// `summary_range`.
pub fn summary_range_until_now(days: i64) -> (r: Option<(String, String)>)
    ensures
        r matches Some((start, end)) ==> exists|now: int|
            #[trigger] in_calendar(now) && in_calendar(now - SECONDS_PER_DAY * days) && start@ == rfc3339_text(
                now - SECONDS_PER_DAY * days,
            ) && end@ == rfc3339_text(now),
        r is None ==> exists|now: int|
            !(#[trigger] in_calendar(now) && in_calendar(now - SECONDS_PER_DAY * days)),
{
    let now = now_unix_timestamp();
    let r = summary_range(now, days);
    proof {
        let t = now as int;
        assert(r is None ==> !(in_calendar(t) && in_calendar(t - SECONDS_PER_DAY * days)));
    }
    r
}

/// On a local Monday the window is one day long, and on a local Sunday
/// seven, at every valid offset.
pub proof fn monday_is_one_sunday_is_seven(unix_seconds: i64, offset_hours: i8)
    requires
        offset_is_valid(offset_hours as int),
        in_calendar(unix_seconds as int),
        in_calendar(local_seconds(unix_seconds as int, offset_hours as int)),
    ensures
        is_monday(local_day(unix_seconds as int, offset_hours as int)) ==> days_since_monday_result(
            unix_seconds as int,
            offset_hours as int,
        ) == Ok::<int, WindowError>(1),
        is_sunday(local_day(unix_seconds as int, offset_hours as int)) ==> days_since_monday_result(
            unix_seconds as int,
            offset_hours as int,
        ) == Ok::<int, WindowError>(7),
{
    let d = local_day(unix_seconds as int, offset_hours as int);
    vstd::arithmetic::div_mod::lemma_add_mod_noop(d, 3, 7);
}

/// Whichever instant `days_since_monday` read (its `ensures` gives one for
/// each result), a window of `days` days means one day on a local Monday
/// and seven on a local Sunday.
pub proof fn window_of_now_on_monday_and_sunday(now: int, offset_hours: i8, days: int)
    requires
        days_since_monday_result(now, offset_hours as int) == Ok::<int, WindowError>(days),
    ensures
        is_monday(local_day(now, offset_hours as int)) ==> days == 1,
        is_sunday(local_day(now, offset_hours as int)) ==> days == 7,
{
    vstd::arithmetic::div_mod::lemma_add_mod_noop(local_day(now, offset_hours as int), 3, 7);
}

} // verus!
