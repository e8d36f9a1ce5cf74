//! Calendar arithmetic on the proleptic Gregorian calendar.
use crate::text::push_padded;
use vstd::prelude::*;

verus! {

/// Whether `year` has a 29th of February.
pub open spec fn is_leap_year(year: int) -> bool {
    year % 4 == 0 && (year % 100 != 0 || year % 400 == 0)
}

/// The number of days in a month of a year; January is month 1.
pub open spec fn days_in_month(year: int, month: int) -> int {
    if month == 2 {
        if is_leap_year(year) { 29 } else { 28 }
    } else if month == 4 || month == 6 || month == 9 || month == 11 {
        30
    } else {
        31
    }
}

/// The number of days of `year` that lie before the first day of `month`.
pub open spec fn days_before_month(year: int, month: int) -> int
    decreases month,
{
    if month <= 1 {
        0
    } else {
        days_before_month(year, month - 1) + days_in_month(year, month - 1)
    }
}

/// The number of days from the first of January of year 1 to the first of
/// January of `year`; negative for years before it.
pub open spec fn days_before_year(year: int) -> int {
    365 * (year - 1) + (year - 1) / 4 - (year - 1) / 100 + (year - 1) / 400
}

/// The number of days from 1970-01-01 to a date.
pub open spec fn day_number(year: int, month: int, day: int) -> int {
    days_before_year(year) + days_before_month(year, month) + (day - 1) - days_before_year(1970)
}

/// Whether a triple names a day of the calendar.
pub open spec fn is_date(year: int, month: int, day: int) -> bool {
    1 <= month <= 12 && 1 <= day <= days_in_month(year, month)
}

/// Splits a day of a 400-year era that starts on a first of March into the
/// year of the era and the day of that year.
proof fn lemma_year_of_era(doe: int, yoe: int, doy: int)
    requires
        0 <= doe <= 146_096,
        yoe == (doe - doe / 1460 + doe / 36524 - doe / 146096) / 365,
        doy == doe - (365 * yoe + yoe / 4 - yoe / 100),
    ensures
        0 <= yoe <= 399,
        0 <= doy <= 365,
        doy == 365 ==> is_leap_year(yoe + 1),
{
}

/// The days of a year that starts in March lie before its months as the
/// month lengths 31, 30, 31, 30, 31 repeat.
proof fn lemma_march_months(year: int, mp: int)
    requires
        0 <= mp <= 11,
    ensures
        mp < 10 ==> days_before_month(year, mp + 3) == days_before_month(year, 3) + (153 * mp + 2)
            / 5,
        mp >= 10 ==> days_before_month(year, mp - 9) == (153 * mp + 2) / 5 - 306,
        days_before_month(year, 3) == 59 + (if is_leap_year(year) { 1int } else { 0int }),
{
    reveal_with_fuel(days_before_month, 13);
}

/// The days that lie before the first of March of a year, counted from the
/// leap-day pattern of the eras.
proof fn lemma_days_before_march(era: int, yoe: int)
    requires
        0 <= yoe <= 399,
    ensures
        ({
            let year = yoe + era * 400;
            let elapsed = era * 146_097 + 365 * yoe + yoe / 4 - yoe / 100;
            &&& days_before_year(year) + days_before_month(year, 3) == elapsed - 306
            &&& days_before_year(year + 1) == elapsed
            &&& is_leap_year(year + 1) == is_leap_year(yoe + 1)
        }),
{
    let year = yoe + era * 400;
    assert(year / 4 == era * 100 + yoe / 4);
    assert(year / 100 == era * 4 + yoe / 100);
    assert(year / 400 == era);
    lemma_march_months(year, 0);
}

/// The month and the day that a day of a year that starts in March falls on.
proof fn lemma_month_of_march_year(year: int, doy: int, mp: int, month: int, day: int)
    requires
        0 <= doy <= 365,
        doy == 365 ==> is_leap_year(year + 1),
        mp == (5 * doy + 2) / 153,
        day == doy - (153 * mp + 2) / 5 + 1,
        month == (if mp < 10 { mp + 3 } else { mp - 9 }),
    ensures
        0 <= mp <= 11,
        mp < 10 ==> is_date(year, month, day) && days_before_month(year, month) + (day - 1)
            == days_before_month(year, 3) + doy,
        mp >= 10 ==> is_date(year + 1, month, day) && days_before_month(year + 1, month) + (day - 1)
            == doy - 306,
{
    lemma_march_months(year, mp);
    lemma_march_months(year + 1, mp);
}

/// Converts a count of days since 1970-01-01 into a proleptic-Gregorian
/// `(year, month, day)`.
///
/// The date returned is a day of the calendar, and it is the one that lies
/// `z` days after 1970-01-01.
pub fn civil_from_days(z: i64) -> (date: (i64, u32, u32))
    requires
        z <= i64::MAX - 719_468,
    ensures
        is_date(date.0 as int, date.1 as int, date.2 as int),
        day_number(date.0 as int, date.1 as int, date.2 as int) == z,
{
    // Days since 0000-03-01: the leap day then ends a year.
    let z: i64 = z + 719_468;
    let shifted: i64 = if z >= 0 { z } else { z - 146_096 };
    let era: i64 = shifted / 146_097;
    assert(era == z as int / 146_097 && 0 <= z - era * 146_097 <= 146_096);
    let doe: u64 = (z - era * 146_097) as u64;
    let yoe: u64 = (doe - doe / 1460 + doe / 36524 - doe / 146096) / 365;
    let y: i64 = yoe as i64 + era * 400;
    proof {
        lemma_year_of_era(
            doe as int,
            yoe as int,
            doe as int - (365 * yoe + yoe as int / 4 - yoe as int / 100),
        );
    }
    let doy: u64 = doe - (365 * yoe + yoe / 4 - yoe / 100);
    let mp: u64 = (5 * doy + 2) / 153;
    let d: u32 = (doy - (153 * mp + 2) / 5 + 1) as u32;
    let m: u32 = (if mp < 10 { mp + 3 } else { mp - 9 }) as u32;
    let year: i64 = if m <= 2 { y + 1 } else { y };
    proof {
        lemma_days_before_march(era as int, yoe as int);
        lemma_month_of_march_year(y as int, doy as int, mp as int, m as int, d as int);
        assert(days_before_year(1970) == 719_162);
    }
    (year, m, d)
}

/// A year has 366 days where it is a leap year and 365 otherwise, and its
/// twelve months make up all of them.
pub proof fn law_year_length(year: int)
    ensures
        days_before_year(year + 1) - days_before_year(year) == if is_leap_year(year) {
            366int
        } else {
            365int
        },
        days_before_month(year, 13) == days_before_year(year + 1) - days_before_year(year),
{
    reveal_with_fuel(days_before_month, 14);
}

/// Different dates lie on different days: of two dates, the one with the
/// earlier year, month or day has the smaller day number.
pub proof fn law_day_numbers_follow_dates(
    y1: int,
    m1: int,
    d1: int,
    y2: int,
    m2: int,
    d2: int,
)
    requires
        is_date(y1, m1, d1),
        is_date(y2, m2, d2),
    ensures
        day_number(y1, m1, d1) < day_number(y2, m2, d2) <==> (y1 < y2 || y1 == y2 && (m1 < m2 || m1
            == m2 && d1 < d2)),
        day_number(y1, m1, d1) == day_number(y2, m2, d2) <==> (y1 == y2 && m1 == m2 && d1 == d2),
{
    lemma_day_within_year(y1, m1, d1);
    lemma_day_within_year(y2, m2, d2);
    if y1 == y2 {
        reveal_with_fuel(days_before_month, 13);
    }
}

/// A date lies within its year.
proof fn lemma_day_within_year(year: int, month: int, day: int)
    requires
        is_date(year, month, day),
    ensures
        days_before_year(year) <= day_number(year, month, day) + days_before_year(1970)
            < days_before_year(year + 1),
{
    law_year_length(year);
    reveal_with_fuel(days_before_month, 14);
}

/// The date that lies `z` days after 1970-01-01.
pub open spec fn date_of(z: int) -> (int, int, int) {
    choose|date: (int, int, int)|
        #![trigger day_number(date.0, date.1, date.2)]
        is_date(date.0, date.1, date.2) && day_number(date.0, date.1, date.2) == z
}

/// Every day has a date: [`date_of`] gives a day of the calendar, and the one
/// that lies `z` days after 1970-01-01.
pub proof fn law_every_day_has_a_date(z: int)
    ensures
        ({
            let date = date_of(z);
            &&& is_date(date.0, date.1, date.2)
            &&& day_number(date.0, date.1, date.2) == z
        }),
{
    let days = z + 719_468;
    let era = days / 146_097;
    let doe = days - era * 146_097;
    let yoe = (doe - doe / 1460 + doe / 36524 - doe / 146096) / 365;
    let doy = doe - (365 * yoe + yoe / 4 - yoe / 100);
    let mp = (5 * doy + 2) / 153;
    let d = doy - (153 * mp + 2) / 5 + 1;
    let m = if mp < 10 { mp + 3 } else { mp - 9 };
    let y = yoe + era * 400;
    lemma_year_of_era(doe, yoe, doy);
    lemma_days_before_march(era, yoe);
    lemma_month_of_march_year(y, doy, mp, m, d);
    assert(days_before_year(1970) == 719_162);
    let date = (if m <= 2 { y + 1 } else { y }, m, d);
    assert(is_date(date.0, date.1, date.2) && day_number(date.0, date.1, date.2) == z);
}

/// The RFC 3339 text, in UTC, of the moment `secs` seconds after the Unix
/// epoch.
pub open spec fn rfc3339(secs: nat) -> Seq<char> {
    let date = date_of((secs / 86_400) as int);
    let of_day = secs % 86_400;
    let two = |n: nat| crate::text::padded_decimal(n, 2);
    crate::text::padded_decimal(date.0 as nat, 4) + "-"@ + two(date.1 as nat) + "-"@ + two(
        date.2 as nat,
    ) + "T"@ + two(of_day / 3600) + ":"@ + two(of_day % 3600 / 60) + ":"@ + two(of_day % 60) + "Z"@
}

/// Formats the moment `total_secs` seconds after the Unix epoch as RFC 3339
/// in UTC with a `Z` suffix, e.g. `2026-08-15T12:00:00Z`.
pub fn rfc3339_utc(total_secs: u64) -> (text: String)
    ensures
        text@ == rfc3339(total_secs as nat),
{
    let days: i64 = (total_secs / 86_400) as i64;
    let secs_of_day: u64 = total_secs % 86_400;
    let (year, month, day) = civil_from_days(days);
    proof {
        let date = date_of(days as int);
        law_day_numbers_follow_dates(
            year as int,
            month as int,
            day as int,
            date.0,
            date.1,
            date.2,
        );
        lemma_year_is_not_negative(year as int, month as int, day as int);
    }
    let mut text = String::new();
    push_padded(&mut text, year as u64, 4);
    text.append("-");
    push_padded(&mut text, month as u64, 2);
    text.append("-");
    push_padded(&mut text, day as u64, 2);
    text.append("T");
    push_padded(&mut text, secs_of_day / 3600, 2);
    text.append(":");
    push_padded(&mut text, secs_of_day % 3600 / 60, 2);
    text.append(":");
    push_padded(&mut text, secs_of_day % 60, 2);
    text.append("Z");
    text
}

/// The years after the Unix epoch are 1970 and later.
proof fn lemma_year_is_not_negative(year: int, month: int, day: int)
    requires
        is_date(year, month, day),
        day_number(year, month, day) >= 0,
    ensures
        year >= 1970,
{
    lemma_day_within_year(year, month, day);
}

/// The years of the moments that 64 bits of seconds reach have few digits.
proof fn lemma_year_is_near(year: int, month: int, day: int)
    requires
        is_date(year, month, day),
        day_number(year, month, day) <= u64::MAX,
    ensures
        year <= u64::MAX,
{
    lemma_day_within_year(year, month, day);
}

/// An RFC 3339 text is short and made of ASCII characters.
pub proof fn lemma_rfc3339_is_short(secs: nat)
    requires
        secs <= u64::MAX,
    ensures
        vstd::utf8::is_ascii_chars(rfc3339(secs)),
        rfc3339(secs).len() <= 200,
{
    reveal_strlit("-");
    reveal_strlit("T");
    reveal_strlit(":");
    reveal_strlit("Z");
    let z = (secs / 86_400) as int;
    let date = date_of(z);
    law_every_day_has_a_date(z);
    lemma_year_is_not_negative(date.0, date.1, date.2);
    lemma_year_is_near(date.0, date.1, date.2);
    let of_day = secs % 86_400;
    crate::text::lemma_padded_decimal(date.0 as nat, 4);
    crate::text::lemma_padded_decimal(date.1 as nat, 2);
    crate::text::lemma_padded_decimal(date.2 as nat, 2);
    crate::text::lemma_padded_decimal(of_day / 3600, 2);
    crate::text::lemma_padded_decimal(of_day % 3600 / 60, 2);
    crate::text::lemma_padded_decimal(of_day % 60, 2);
}

/// `SystemTime::now` since `SystemTime::UNIX_EPOCH`, in whole seconds.
///
/// The clock decides the value, so nothing is claimed of it. `None` stands for
/// a clock that is set to a moment before the epoch.
#[verifier::external_body]
pub(crate) fn unix_seconds_now() -> (secs: Option<u64>) {
    std::time::SystemTime::now()
        .duration_since(std::time::SystemTime::UNIX_EPOCH)
        .ok()
        .map(|elapsed| elapsed.as_secs())
}

/// Formats the current UTC time as RFC 3339 with a `Z` suffix.
///
/// `None` where the system clock is set to a moment before the Unix epoch.
pub fn rfc3339_now_utc() -> (text: Option<String>)
    ensures
        text matches Some(t) ==> exists|secs: u64| t@ == #[trigger] rfc3339(secs as nat),
{
    rfc3339_given(unix_seconds_now())
}

/// Formats the moment that the system clock shows, in seconds after the Unix
/// epoch; `None` stands for a clock that is set to a moment before it. See
/// [`rfc3339_now_utc`].
pub fn rfc3339_given(secs: Option<u64>) -> (text: Option<String>)
    ensures
        crate::text::text_option_view(text) == match secs {
            Some(secs) => Some(rfc3339(secs as nat)),
            None => None,
        },
{
    match secs {
        Some(secs) => Some(rfc3339_utc(secs)),
        None => None,
    }
}

/// The Gregorian calendar: February has 29 days in the years that 4 divides, but
/// for those that 100 divides and 400 does not, and 28 in the others; April,
/// June, September and November have 30 days, the other months 31.
pub proof fn law_month_lengths(year: int, month: int)
    requires
        1 <= month <= 12,
    ensures
        month == 2 && year % 4 != 0 ==> days_in_month(year, month) == 28,
        month == 2 && year % 100 == 0 && year % 400 != 0 ==> days_in_month(year, month) == 28,
        month == 2 && year % 4 == 0 && year % 100 != 0 ==> days_in_month(year, month) == 29,
        month == 2 && year % 400 == 0 ==> days_in_month(year, month) == 29,
        month == 4 || month == 6 || month == 9 || month == 11 ==> days_in_month(year, month) == 30,
        month == 1 || month == 3 || month == 5 || month == 7 || month == 8 || month == 10 || month
            == 12 ==> days_in_month(year, month) == 31,
{
}

/// Days are counted one by one from 1970-01-01: the day after a date is the next
/// of the month, or the first of the next month, or the first of the next year.
pub proof fn law_days_are_counted(year: int, month: int, day: int)
    requires
        1 <= month <= 12,
        1 <= day <= days_in_month(year, month),
    ensures
        day_number(1970, 1, 1) == 0,
        is_date(year, month, day),
        day < days_in_month(year, month) ==> day_number(year, month, day + 1) == day_number(
            year,
            month,
            day,
        ) + 1,
        day == days_in_month(year, month) && month < 12 ==> day_number(year, month + 1, 1)
            == day_number(year, month, day) + 1,
        day == days_in_month(year, month) && month == 12 ==> day_number(year + 1, 1, 1)
            == day_number(year, month, day) + 1,
{
    law_year_length(year);
    reveal_with_fuel(days_before_month, 14);
}

/// Only days of the calendar are dates.
pub proof fn law_dates_are_days_of_months(year: int, month: int, day: int)
    ensures
        is_date(year, month, day) <==> 1 <= month <= 12 && 1 <= day <= days_in_month(year, month),
{
}

proof fn lemma_two_digits(n: nat)
    requires
        n < 100,
    ensures
        crate::text::padded_decimal(n, 2).len() == 2,
        crate::text::decimal_value(crate::text::padded_decimal(n, 2)) == n,
{
    crate::text::law_decimal_reads_back(n, 2);
    reveal_with_fuel(crate::text::padded_decimal, 3);
}

/// An RFC 3339 text says its moment. Read from the end it is seconds, minutes
/// and hours of two digits with colons between them behind a `T`, with a `Z`
/// behind, then day and month of two digits and the year of at least four, with
/// dashes between them; the date and the time of day make up the seconds since
/// the Unix epoch.
pub proof fn law_rfc3339_reads_back(secs: nat)
    requires
        secs <= u64::MAX,
    ensures
        ({
            let text = rfc3339(secs);
            let n = text.len() as int;
            let second = crate::text::decimal_value(text.subrange(n - 3, n - 1));
            let minute = crate::text::decimal_value(text.subrange(n - 6, n - 4));
            let hour = crate::text::decimal_value(text.subrange(n - 9, n - 7));
            let day = crate::text::decimal_value(text.subrange(n - 12, n - 10));
            let month = crate::text::decimal_value(text.subrange(n - 15, n - 13));
            let year = crate::text::decimal_value(text.take(n - 16));
            &&& n >= 20
            &&& n > 20 ==> text[0] != '0'
            &&& text[n - 1] == 'Z'
            &&& text[n - 4] == ':' && text[n - 7] == ':'
            &&& text[n - 10] == 'T'
            &&& text[n - 13] == '-' && text[n - 16] == '-'
            &&& second < 60 && minute < 60 && hour < 24
            &&& is_date(year as int, month as int, day as int)
            &&& secs == day_number(year as int, month as int, day as int) * 86_400 + hour * 3600
                + minute * 60 + second
        }),
{
    reveal_strlit("-");
    reveal_strlit("T");
    reveal_strlit(":");
    reveal_strlit("Z");
    let z = (secs / 86_400) as int;
    let date = date_of(z);
    law_every_day_has_a_date(z);
    lemma_year_is_not_negative(date.0, date.1, date.2);
    let of_day = secs % 86_400;
    let y = crate::text::padded_decimal(date.0 as nat, 4);
    let m = crate::text::padded_decimal(date.1 as nat, 2);
    let d = crate::text::padded_decimal(date.2 as nat, 2);
    let h = crate::text::padded_decimal(of_day / 3600, 2);
    let mi = crate::text::padded_decimal(of_day % 3600 / 60, 2);
    let s = crate::text::padded_decimal(of_day % 60, 2);
    crate::text::law_decimal_reads_back(date.0 as nat, 4);
    lemma_two_digits(date.1 as nat);
    lemma_two_digits(date.2 as nat);
    lemma_two_digits(of_day / 3600);
    lemma_two_digits(of_day % 3600 / 60);
    lemma_two_digits(of_day % 60);
    let text = rfc3339(secs);
    let n = text.len() as int;
    assert(n == y.len() + 16);
    assert(text.take(n - 16) =~= y);
    assert(text.subrange(n - 15, n - 13) =~= m);
    assert(text.subrange(n - 12, n - 10) =~= d);
    assert(text.subrange(n - 9, n - 7) =~= h);
    assert(text.subrange(n - 6, n - 4) =~= mi);
    assert(text.subrange(n - 3, n - 1) =~= s);
}

}
