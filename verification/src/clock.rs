//! Points in time: Unix timestamps, their texts, and the business day.
use chrono::TimeZone;
use vstd::prelude::*;

use crate::text;

verus! {

/// A point in time as read from an RFC 3339 text: seconds since the Unix epoch,
/// and the offset of the local time from UTC in seconds.
#[derive(Debug, Clone, Copy, PartialEq, Eq, Structural)]
pub struct Moment {
    pub timestamp: i64,
    pub offset: i32,
}

/// No point in time that the calendar reaches is further from the epoch.
pub const MAX_TIMESTAMP: i64 = 10_000_000_000_000;

/// The RFC 3339 text of a timestamp in UTC, if the calendar reaches that far.
pub uninterp spec fn rfc3339_text(timestamp: i64) -> Option<Seq<char>>;

/// `to_rfc3339` of chrono on `Utc.timestamp_opt(timestamp, 0)`: the text that the
/// name `rfc3339_text` stands for, or nothing where the timestamp is out of the
/// calendar's range.
#[verifier::external_body]
fn utc_rfc3339(timestamp: i64) -> (r: Option<String>)
    ensures
        match r {
            Some(s) => rfc3339_text(timestamp) == Some(s@),
            None => rfc3339_text(timestamp) is None,
        },
{
    chrono::Utc.timestamp_opt(timestamp, 0).single().map(|item| item.to_rfc3339())
}

/// The point in time that an RFC 3339 text names, or what is wrong with the text.
pub uninterp spec fn rfc3339_read(s: Seq<char>) -> Result<Moment, Seq<char>>;

/// `chrono::DateTime::parse_from_rfc3339`: the point in time, or the text of the
/// error, that the name `rfc3339_read` stands for. A point in time lies in the
/// calendar's range, and its offset is less than a day.
#[verifier::external_body]
pub(crate) fn parse_rfc3339(s: &str) -> (r: Result<Moment, String>)
    ensures
        match r {
            Ok(m) => rfc3339_read(s@) == Ok::<Moment, Seq<char>>(m),
            Err(e) => rfc3339_read(s@) == Err::<Moment, Seq<char>>(e@),
        },
        r matches Ok(m) ==> -MAX_TIMESTAMP <= m.timestamp <= MAX_TIMESTAMP && -86_400 < m.offset
            < 86_400,
{
    match chrono::DateTime::parse_from_rfc3339(s) {
        Ok(t) => Ok(Moment { timestamp: t.timestamp(), offset: t.offset().local_minus_utc() }),
        Err(e) => Err(e.to_string()),
    }
}

/// The point in time that an RFC 3339 text names, if it names one.
pub open spec fn rfc3339_moment(s: Seq<char>) -> Option<Moment> {
    match rfc3339_read(s) {
        Ok(m) => Some(m),
        Err(_) => None,
    }
}

/// How many days later the same local time is after some months, on the last day
/// of the month where the month is too short; nothing where the calendar ends before.
pub uninterp spec fn days_to_months_later(from: Moment, months: u32) -> Option<i64>;

/// `checked_add_months` of chrono's `DateTime<FixedOffset>`: the number of days to
/// the date it gives, which the name `days_to_months_later` stands for. A month has
/// between twenty-eight and thirty-one days.
#[verifier::external_body]
pub(crate) fn add_months(from: Moment, months: u32) -> (r: Option<i64>)
    ensures
        r == days_to_months_later(from, months),
        r matches Some(days) ==> 28 * months <= days <= 31 * months,
{
    let zone = chrono::FixedOffset::east_opt(from.offset)?;
    let start = zone.timestamp_opt(from.timestamp, 0).single()?;
    let target = start.checked_add_months(chrono::Months::new(months))?;
    Some((target - start).num_days())
}

/// `chrono::Utc::now`, in seconds: nothing is said of the current time but that the
/// calendar reaches it.
#[verifier::external_body]
pub(crate) fn utc_now() -> (r: i64)
    ensures
        -MAX_TIMESTAMP <= r <= MAX_TIMESTAMP,
{
    chrono::Utc::now().timestamp()
}

/// The timestamp of midnight UTC on the date that a text of the form
/// `year-month-day` names, if it names one.
pub uninterp spec fn date_timestamp(s: Seq<char>) -> Option<i64>;

/// `chrono::NaiveDate::parse_from_str` with the format `%Y-%m-%d`: midnight UTC on
/// that date, as the name `date_timestamp` stands for.
#[verifier::external_body]
fn parse_date(s: &str) -> (r: Option<i64>)
    ensures
        r == date_timestamp(s@),
        r matches Some(t) ==> -MAX_TIMESTAMP <= t <= MAX_TIMESTAMP,
{
    let date = chrono::NaiveDate::parse_from_str(s, "%Y-%m-%d").ok()?;
    Some(date.and_hms_opt(0, 0, 0)?.and_utc().timestamp())
}

/// The date in UTC of a timestamp, as `year-month-day`, if the calendar reaches it.
pub uninterp spec fn date_text(timestamp: i64) -> Option<Seq<char>>;

/// `format("%Y-%m-%d")` of chrono on `Utc.timestamp_opt(timestamp, 0)`: the text that
/// the name `date_text` stands for.
#[verifier::external_body]
fn utc_date(timestamp: i64) -> (r: Option<String>)
    ensures
        match r {
            Some(s) => date_text(timestamp) == Some(s@),
            None => date_text(timestamp) is None,
        },
{
    let day = chrono::Utc.timestamp_opt(timestamp, 0).single()?;
    Some(day.format("%Y-%m-%d").to_string())
}

// ---------------------------------------------------------------------------
// Texts of points in time
// ---------------------------------------------------------------------------
/// The given text, or else the decimal text of the number.
pub open spec fn text_or_number(s: Option<Seq<char>>, n: int) -> Seq<char> {
    match s {
        Some(t) => t,
        None => text::decimal(n),
    }
}

pub fn string_or_number(s: Option<String>, n: i64) -> (r: String)
    ensures
        r@ == text_or_number(crate::db::opt_text(s), n as int),
{
    match s {
        Some(t) => t,
        None => text::i64_text(n),
    }
}

/// The RFC 3339 text of a timestamp, or its number where the calendar ends before.
pub open spec fn shown_time(value: i64) -> Seq<char> {
    text_or_number(rfc3339_text(value), value as int)
}

pub open spec fn opt_shown_time(value: Option<i64>) -> Option<Seq<char>> {
    match value {
        Some(v) => Some(shown_time(v)),
        None => None,
    }
}

pub fn timestamp_to_rfc3339(value: i64) -> (r: String)
    ensures
        r@ == shown_time(value),
{
    string_or_number(utc_rfc3339(value), value)
}

pub fn optional_timestamp_to_rfc3339(value: Option<i64>) -> (r: Option<String>)
    ensures
        crate::db::opt_text(r) == opt_shown_time(value),
{
    match value {
        None => None,
        Some(v) => Some(timestamp_to_rfc3339(v)),
    }
}

/// The point in time that a filter names: a timestamp, an RFC 3339 text, or a date,
/// of which it is the first or the last second.
pub open spec fn query_timestamp(s: Seq<char>, end_of_day: bool) -> Option<int> {
    let t = text::trimmed(s);
    match text::i64_in(t) {
        Some(n) => Some(n),
        None => match rfc3339_moment(t) {
            Some(m) => Some(m.timestamp as int),
            None => match date_timestamp(t) {
                Some(d) => Some(
                    if end_of_day {
                        d + 86_399
                    } else {
                        d as int
                    },
                ),
                None => None,
            },
        },
    }
}

pub fn parse_query_timestamp(value: &str, end_of_day: bool) -> (r: Option<i64>)
    ensures
        text::trimmed(value@).len() == 0 ==> r is None,
        text::trimmed(value@).len() > 0 ==> match r {
            Some(t) => query_timestamp(value@, end_of_day) == Some(t as int),
            None => query_timestamp(value@, end_of_day) is None,
        },
{
    let trimmed = text::trim(value);
    if trimmed.is_empty() {
        return None;
    }
    if let Some(n) = text::parse_i64(trimmed) {
        return Some(n);
    }
    if let Ok(m) = parse_rfc3339(trimmed) {
        return Some(m.timestamp);
    }
    match parse_date(trimmed) {
        Some(d) => Some(
            if end_of_day {
                d + 86_399
            } else {
                d
            },
        ),
        None => None,
    }
}

// ---------------------------------------------------------------------------
// The business day
// ---------------------------------------------------------------------------
pub const DAY_SECONDS: i64 = 86_400;

/// Business days begin at midnight eight hours ahead of UTC.
pub const BIZ_OFFSET_SECONDS: i64 = 28_800;

/// When the business day of a point in time began. Before the first business day
/// of the epoch, days are counted towards it.
pub open spec fn biz_day_start(now: int) -> int {
    let local = now + BIZ_OFFSET_SECONDS;
    if local >= 0 {
        local / (DAY_SECONDS as int) * DAY_SECONDS - BIZ_OFFSET_SECONDS
    } else {
        -((-local) / (DAY_SECONDS as int) * DAY_SECONDS) - BIZ_OFFSET_SECONDS
    }
}

pub fn get_biz_day_start_utc_timestamp(now: i64) -> (r: i64)
    requires
        now <= i64::MAX - BIZ_OFFSET_SECONDS,
    ensures
        r == biz_day_start(now as int),
{
    let local: i64 = now + BIZ_OFFSET_SECONDS;
    if local >= 0 {
        local / DAY_SECONDS * DAY_SECONDS - BIZ_OFFSET_SECONDS
    } else {
        let before: i64 = -local;
        -(before / DAY_SECONDS * DAY_SECONDS) - BIZ_OFFSET_SECONDS
    }
}

/// Every point in time since the epoch lies in its business day, and business days
/// begin a day apart.
pub proof fn law_biz_day_holds_its_moments(now: int, later: int)
    requires
        now + BIZ_OFFSET_SECONDS >= 0,
    ensures
        biz_day_start(now) <= now < biz_day_start(now) + DAY_SECONDS,
        now <= later < biz_day_start(now) + DAY_SECONDS ==> biz_day_start(later)
            == biz_day_start(now),
        biz_day_start(now + DAY_SECONDS) == biz_day_start(now) + DAY_SECONDS,
{
}

/// The calendar date of the business day at a point in time.
pub open spec fn biz_date(timestamp: int) -> Seq<char> {
    date_or_epoch(date_text((timestamp + BIZ_OFFSET_SECONDS) as i64))
}

pub open spec fn date_or_epoch(date: Option<Seq<char>>) -> Seq<char> {
    match date {
        Some(d) => d,
        None => "1970-01-01"@,
    }
}

pub fn biz_date_str(timestamp: i64) -> (r: String)
    requires
        timestamp <= i64::MAX - BIZ_OFFSET_SECONDS,
    ensures
        r@ == biz_date(timestamp as int),
{
    match utc_date(timestamp + BIZ_OFFSET_SECONDS) {
        Some(date) => date,
        None => "1970-01-01".to_owned(),
    }
}

// ---------------------------------------------------------------------------
// Remaining time
// ---------------------------------------------------------------------------
/// The days from now to a point in time, a begun day counted whole; none once it is past.
pub open spec fn days_left(until: int, now: int) -> int {
    if until <= now {
        0
    } else {
        (until - now + DAY_SECONDS - 1) / (DAY_SECONDS as int)
    }
}

/// The days that are left are the fewest that reach the end: they do, and one fewer does not.
pub proof fn law_days_left_are_begun_days(until: int, now: int)
    ensures
        days_left(until, now) >= 0,
        now + days_left(until, now) * 86_400 >= until,
        days_left(until, now) > 0 ==> now + (days_left(until, now) - 1) * 86_400 < until,
{
}

pub fn remaining_days_from_rfc3339(value: &str, now: i64) -> (r: Result<i64, String>)
    ensures
        match r {
            Ok(days) => rfc3339_moment(value@) is Some && days == days_left(
                rfc3339_moment(value@)->0.timestamp as int,
                now as int,
            ),
            Err(e) => rfc3339_read(value@) is Err && e@ == "failed to parse subscription expiry "@
                + value@ + ": "@ + rfc3339_read(value@)->Err_0,
        },
        r matches Ok(days) ==> days >= 0,
{
    match parse_rfc3339(value) {
        Ok(m) => {
            if m.timestamp <= now {
                Ok(0)
            } else {
                let seconds: i128 = (m.timestamp as i128) - (now as i128);
                let days: i128 = (seconds + (DAY_SECONDS as i128) - 1) / (DAY_SECONDS as i128);
                Ok(days as i64)
            }
        },
        Err(e) => {
            let mut message = "failed to parse subscription expiry ".to_owned();
            message.append(value);
            message.append(": ");
            message.append(e.as_str());
            Err(message)
        },
    }
}

/// A business day begins at a midnight eight hours ahead of UTC, and lasts a day.
pub proof fn law_business_days_begin_at_their_midnight(now: int)
    requires
        now + 28_800 >= 0,
    ensures
        (biz_day_start(now) + 28_800) % 86_400 == 0,
        biz_day_start(now) <= now < biz_day_start(now) + 86_400,
{
}

/// The date of a business day is the date, in UTC, eight hours later.
pub proof fn law_business_dates_are_eight_hours_ahead(timestamp: i64)
    requires
        timestamp <= i64::MAX - 28_800,
        date_text((timestamp + 28_800) as i64) is Some,
    ensures
        biz_date(timestamp as int) == date_text((timestamp + 28_800) as i64)->0,
{
}

/// A filter that names a date as its end reaches to the last second of that day; one that
/// names a point in time reaches to that point, whether as its end or as its beginning.
pub proof fn law_filters_reach_to_the_end_of_their_day(s: Seq<char>)
    ensures
        ({
            let t = text::trimmed(s);
            let from = query_timestamp(s, false);
            let to = query_timestamp(s, true);
            let point = text::i64_in(t) is Some || rfc3339_read(t) is Ok;
            &&& from is Some <==> to is Some
            &&& point ==> from is Some && from == to
            &&& !point && from is Some ==> to->0 == from->0 + 24 * 60 * 60 - 1 && date_timestamp(
                t,
            ) is Some && from->0 == date_timestamp(t)->0
            &&& text::i64_in(t) is Some ==> from == text::i64_in(t)
            &&& text::i64_in(t) is None && rfc3339_read(t) is Ok ==> from == Some(
                rfc3339_read(t)->Ok_0.timestamp as int,
            )
        }),
{
}

/// A time is shown as its RFC 3339 text, and without one as its number.
pub proof fn law_times_are_shown(value: i64)
    ensures
        rfc3339_text(value) is Some ==> shown_time(value) == rfc3339_text(value)->0,
        rfc3339_text(value) is None ==> shown_time(value) == text::decimal(value as int),
        opt_shown_time(Some(value)) == Some(shown_time(value)),
        opt_shown_time(None) is None,
{
}

/// The days that a subscription still runs are the fewest that reach its end.
pub proof fn law_subscriptions_run_to_their_end(
    until: &str,
    now: i64,
    r: Result<i64, String>,
    end: Moment,
)
    requires
        call_ensures(remaining_days_from_rfc3339, (until, now), r),
        rfc3339_read(until@) == Ok::<Moment, Seq<char>>(end),
    ensures
        r matches Ok(days) && 0 <= days && now + days * 86_400 >= end.timestamp && (days > 0
            ==> now + (days - 1) * 86_400 < end.timestamp),
{
    law_days_left_are_begun_days(end.timestamp as int, now as int);
}

}
