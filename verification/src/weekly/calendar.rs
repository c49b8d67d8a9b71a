use vstd::prelude::*;
use time::format_description::well_known::Rfc3339;
use time::{Date, OffsetDateTime};
use crate::weekly::kinds::{days_from_sunday, WeekdayStart};
use crate::weekly::settings::Settings;
use crate::weekly::text::{decimal, push_char, push_padded_decimal, zero_padded};

verus! {

/// The Julian day number of the first date the calendar knows (-9999-01-01).
pub const FIRST_JULIAN_DAY: i32 = -1_930_999;

/// The Julian day number of the last date the calendar knows (9999-12-31).
pub const LAST_JULIAN_DAY: i32 = 5_373_484;

/// The Julian day number of 1970-01-01, the day of Unix time 0.
pub const UNIX_EPOCH_JULIAN_DAY: i32 = 2_440_588;

/// The first Unix time the calendar knows (-9999-01-01 00:00:00 UTC).
pub const FIRST_UNIX_SECOND: i64 = -377_705_116_800;

/// The last Unix time the calendar knows (9999-12-31 23:59:59 UTC).
pub const LAST_UNIX_SECOND: i64 = 253_402_300_799;

/// A calendar day, by its Julian day number: the next day has the next number.
#[derive(Debug, Clone, Copy, PartialEq, Eq, Structural)]
pub struct Day {
    pub julian: i32,
}

/// A point in time: Unix seconds and nanoseconds, and the calendar day it
/// falls on in the time zone it was given in.
#[derive(Debug, Clone, Copy, PartialEq, Eq, Structural)]
pub struct Moment {
    pub unix_seconds: i64,
    pub nanosecond: u32,
    pub day: Day,
}

/// Whether a Julian day number is one the calendar knows.
pub open spec fn in_calendar(julian: int) -> bool {
    FIRST_JULIAN_DAY <= julian <= LAST_JULIAN_DAY
}

/// The UTC day of a Unix time.
pub open spec fn utc_day_of(unix_seconds: int) -> int {
    UNIX_EPOCH_JULIAN_DAY + unix_seconds / 86400
}

/// Year, month (1 to 12) and day of month of a Julian day number in the
/// proleptic Gregorian calendar (Julian day 2440588 is 1970-01-01). Days are
/// counted from 0000-03-01 in eras of 400 years (146097 days), each year of an
/// era running from March, so that a leap day falls at the end of its year.
pub open spec fn calendar_of(julian: int) -> (int, int, int) {
    let z = julian - 1_721_120;
    let era = z / 146_097;
    let day_of_era = z - era * 146_097;
    let year_of_era = (day_of_era - day_of_era / 1_460 + day_of_era / 36_524 - day_of_era / 146_096)
        / 365;
    let day_of_year = day_of_era - (365 * year_of_era + year_of_era / 4 - year_of_era / 100);
    let month_from_march = (5 * day_of_year + 2) / 153;
    let day = day_of_year - (153 * month_from_march + 2) / 5 + 1;
    let month = if month_from_march < 10 {
        month_from_march + 3
    } else {
        month_from_march - 9
    };
    let year = era * 400 + year_of_era + if month <= 2 {
        1int
    } else {
        0int
    };
    (year, month, day)
}

/// What `time` reads from an RFC 3339 text: Unix seconds, nanoseconds and the
/// Julian day in the text's own offset; none when the text is not RFC 3339.
pub uninterp spec fn rfc3339_moment(text: Seq<char>) -> Option<(int, int, int)>;

/// The RFC 3339 text that `time` writes for a UTC instant, empty when it cannot.
pub uninterp spec fn rfc3339_text(unix_seconds: int, nanosecond: int) -> Seq<char>;

/// The current time in UTC.
///
/// Trusted: `time::OffsetDateTime::now_utc`, read as Unix seconds,
/// nanosecond and date. Claimed of every reading: the nanosecond is below one
/// second, and the date is the UTC day of the Unix time and one the calendar
/// knows. Which instant is read is not stated: it is the system clock.
#[verifier::external_body]
pub fn now_utc() -> (m: Moment)
    ensures
        m.nanosecond < 1_000_000_000,
        m.day.julian == utc_day_of(m.unix_seconds as int),
        in_calendar(m.day.julian as int),
{
    let t = OffsetDateTime::now_utc();
    Moment {
        unix_seconds: t.unix_timestamp(),
        nanosecond: t.nanosecond(),
        day: Day { julian: t.date().to_julian_day() },
    }
}

/// The current time in the local time zone, when it can be determined.
///
/// Trusted: `time::OffsetDateTime::now_local`, read as Unix seconds,
/// nanosecond and local date. Claimed of every reading: the nanosecond is
/// below one second and the date is one the calendar knows. Which instant and
/// which offset are read is not stated: they come from the system.
#[verifier::external_body]
pub fn now_local() -> (r: Option<Moment>)
    ensures
        r matches Some(m) ==> m.nanosecond < 1_000_000_000 && in_calendar(m.day.julian as int),
{
    match OffsetDateTime::now_local() {
        Ok(t) => Some(
            Moment {
                unix_seconds: t.unix_timestamp(),
                nanosecond: t.nanosecond(),
                day: Day { julian: t.date().to_julian_day() },
            },
        ),
        Err(_) => None,
    }
}

/// Reads an RFC 3339 timestamp.
///
/// Trusted: `time::OffsetDateTime::parse` with `Rfc3339`, read as Unix
/// seconds, nanosecond and date. Claimed: the reading is `rfc3339_moment` of
/// the text, its nanosecond is below one second and its date one the calendar
/// knows (the ranges of `nanosecond()` and of `Date`).
#[verifier::external_body]
pub fn parse_rfc3339(text: &str) -> (r: Option<Moment>)
    ensures
        match r {
            Some(m) => rfc3339_moment(text@) == Some(
                (m.unix_seconds as int, m.nanosecond as int, m.day.julian as int),
            ) && m.nanosecond < 1_000_000_000 && in_calendar(m.day.julian as int),
            None => rfc3339_moment(text@) is None,
        },
{
    match OffsetDateTime::parse(text, &Rfc3339) {
        Ok(t) => Some(
            Moment {
                unix_seconds: t.unix_timestamp(),
                nanosecond: t.nanosecond(),
                day: Day { julian: t.date().to_julian_day() },
            },
        ),
        Err(_) => None,
    }
}

/// Writes a UTC instant as RFC 3339 text.
///
/// Trusted: `time::OffsetDateTime::from_unix_timestamp`, then
/// `replace_nanosecond` and `format` with `Rfc3339`; empty text where one of
/// them fails. Claimed: the text is `rfc3339_text` of the two numbers.
#[verifier::external_body]
pub fn format_rfc3339(unix_seconds: i64, nanosecond: u32) -> (r: String)
    ensures
        r@ == rfc3339_text(unix_seconds as int, nanosecond as int),
{
    match OffsetDateTime::from_unix_timestamp(unix_seconds) {
        Ok(t) => match t.replace_nanosecond(nanosecond) {
            Ok(t) => t.format(&Rfc3339).unwrap_or_default(),
            Err(_) => String::new(),
        },
        Err(_) => String::new(),
    }
}

/// The UTC day of a Unix time.
///
/// Trusted: `time::OffsetDateTime::from_unix_timestamp`, then `date`. Claimed,
/// as its source shows: it succeeds exactly on the Unix times the calendar
/// knows, with the day `UNIX_EPOCH_JULIAN_DAY` plus the floor of the seconds
/// over 86400; otherwise its error reads "timestamp was not in range".
#[verifier::external_body]
pub fn utc_day_of_unix_time(unix_seconds: i64) -> (r: Result<Day, String>)
    ensures
        match r {
            Ok(d) => FIRST_UNIX_SECOND <= unix_seconds <= LAST_UNIX_SECOND && d.julian
                == utc_day_of(unix_seconds as int),
            Err(msg) => !(FIRST_UNIX_SECOND <= unix_seconds <= LAST_UNIX_SECOND) && msg@
                == "timestamp was not in range"@,
        },
{
    match OffsetDateTime::from_unix_timestamp(unix_seconds) {
        Ok(t) => Ok(Day { julian: t.date().to_julian_day() }),
        Err(e) => Err(e.to_string()),
    }
}

/// Year, month and day of month of a calendar day.
///
/// Trusted: `time::Date::from_julian_day`, then `year`, `month` (as its
/// number) and `day`. Claimed: it succeeds exactly on the days the calendar
/// knows (`Date::MIN` to `Date::MAX`), with the proleptic Gregorian date of
/// the day (`calendar_of`), a month from 1 to 12 and a day of month from 1
/// to 31.
#[verifier::external_body]
pub fn calendar_date(day: Day) -> (r: Option<(i32, u8, u8)>)
    ensures
        r is Some <==> in_calendar(day.julian as int),
        r matches Some(c) ==> calendar_of(day.julian as int) == (c.0 as int, c.1 as int, c.2 as int)
            && 1 <= c.1 <= 12 && 1 <= c.2 <= 31,
{
    match Date::from_julian_day(day.julian) {
        Ok(d) => Some((d.year(), u8::from(d.month()), d.day())),
        Err(_) => None,
    }
}

/// Today's date: in the local time zone, or in UTC when the local offset
/// cannot be determined.
pub fn today() -> (d: Day)
    ensures
        in_calendar(d.julian as int),
{
    day_of_local_reading(now_local())
}

/// Today's date from a reading of the local clock: the reading's day when
/// there is one, otherwise the UTC day read from the clock.
pub fn day_of_local_reading(local: Option<Moment>) -> (d: Day)
    ensures
        local matches Some(m) ==> d == m.day,
        local is None ==> in_calendar(d.julian as int),
{
    match local {
        Some(m) => m.day,
        None => now_utc().day,
    }
}

/// Days from the last Sunday (0) to Saturday (6) of a Julian day number, as
/// `time::Date::weekday().number_days_from_sunday()` gives it (Julian day 0 is a Monday).
pub open spec fn weekday_of(julian: int) -> int {
    (julian % 7 + 1) % 7
}

pub fn weekday_from_sunday(day: Day) -> (r: u8)
    ensures
        r == weekday_of(day.julian as int),
{
    let shifted: i64 = day.julian as i64 + 2_147_483_653i64;
    let rem: i64 = shifted % 7;
    assert((day.julian as int + 2_147_483_653) % 7 == (day.julian as int) % 7) by {
        vstd::arithmetic::div_mod::lemma_mod_add_multiples_vanish(
            day.julian as int,
            7,
        );
        assert(2_147_483_653 == 7 * 306_783_379);
        vstd::arithmetic::div_mod::lemma_mod_multiples_vanish(
            306_783_379,
            day.julian as int,
            7,
        );
    }
    ((rem + 1) % 7) as u8
}

/// How many days before today the shown week starts: the days back to the
/// chosen week start in the week view, and six days otherwise.
pub open spec fn days_back(today: int, current_week: bool, start: WeekdayStart) -> int {
    if current_week {
        let current = weekday_of(today);
        let desired = days_from_sunday(start);
        if current >= desired {
            current - desired
        } else {
            current + 7 - desired
        }
    } else {
        6
    }
}

/// The Julian day numbers of the seven days shown, oldest first.
pub open spec fn shown_days(today: int, current_week: bool, start: WeekdayStart) -> Seq<int> {
    Seq::new(7, |i: int| today - days_back(today, current_week, start) + i)
}

/// Whether an array of days holds exactly the given day numbers.
pub open spec fn days_are(days: [Day; 7], numbers: Seq<int>) -> bool {
    forall|i: int| 0 <= i < 7 ==> #[trigger] days@[i].julian == numbers[i]
}

/// The seven days shown for a given today: the week from the chosen week
/// start when the week view is on, and the last seven days otherwise.
pub fn dates_from(today: Day, settings: &Settings) -> (r: [Day; 7])
    requires
        in_calendar(today.julian as int),
    ensures
        days_are(
            r,
            shown_days(today.julian as int, settings.show_current_week_only, settings.week_start_day),
        ),
{
    let back: i32 = if settings.show_current_week_only {
        let current = weekday_from_sunday(today);
        let desired = settings.week_start_day.number_from_sunday();
        if current >= desired {
            (current - desired) as i32
        } else {
            (current + 7 - desired) as i32
        }
    } else {
        6
    };
    let start = today.julian - back;
    [
        Day { julian: start },
        Day { julian: start + 1 },
        Day { julian: start + 2 },
        Day { julian: start + 3 },
        Day { julian: start + 4 },
        Day { julian: start + 5 },
        Day { julian: start + 6 },
    ]
}

/// The seven days to show for the settings, counted from today.
pub fn dates_for(settings: &Settings) -> (r: [Day; 7])
    ensures
        exists|today: int|
            in_calendar(today) && days_are(
                r,
                #[trigger] shown_days(today, settings.show_current_week_only, settings.week_start_day),
            ),
{
    let t = today();
    let r = dates_from(t, settings);
    assert(in_calendar(t.julian as int));
    r
}

/// The days shown are consecutive, oldest first.
pub proof fn law_shown_days_are_consecutive(today: int, current_week: bool, start: WeekdayStart)
    ensures
        forall|i: int|
            0 <= i < 6 ==> #[trigger] shown_days(today, current_week, start)[i + 1] == shown_days(
                today,
                current_week,
                start,
            )[i] + 1,
{
}

/// Without the week view, the last seven days end with today.
pub proof fn law_last_seven_days_end_today(today: int, start: WeekdayStart)
    ensures
        shown_days(today, false, start)[6] == today,
        shown_days(today, false, start)[0] == today - 6,
{
}

/// With the week view, the week shown begins on the chosen week start and holds today.
pub proof fn law_week_view_starts_on_week_start(today: int, start: WeekdayStart)
    ensures
        weekday_of(shown_days(today, true, start)[0]) == days_from_sunday(start),
        shown_days(today, true, start)[0] <= today <= shown_days(today, true, start)[6],
{
    let first = shown_days(today, true, start)[0];
    let back = days_back(today, true, start);
    assert(first == today - back);
    assert(0 <= back < 7);
    assert(weekday_of(first) == days_from_sunday(start)) by {
        let c = weekday_of(today);
        let d = days_from_sunday(start);
        assert(0 <= today % 7 < 7);
        assert(0 <= c < 7);
        assert(weekday_of(today - back) == ((today - back) % 7 + 1) % 7);
    }
}

/// A year as the `[year]` component writes it: at least four digits, with a
/// minus sign for years before year 0.
pub open spec fn year_text(year: int) -> Seq<char> {
    if year < 0 {
        seq!['-'] + zero_padded(decimal((-year) as nat), 4)
    } else {
        zero_padded(decimal(year as nat), 4)
    }
}

/// The key of a date: `year-month-day`, month and day with two digits.
pub open spec fn key_text(year: int, month: int, day: int) -> Seq<char> {
    year_text(year) + seq!['-'] + zero_padded(decimal(month as nat), 2) + seq!['-']
        + zero_padded(decimal(day as nat), 2)
}

/// The key of a calendar day, empty for a day the calendar does not know.
pub open spec fn day_key(julian: int) -> Seq<char> {
    if in_calendar(julian) {
        let c = calendar_of(julian);
        key_text(c.0, c.1, c.2)
    } else {
        Seq::empty()
    }
}

/// The key of a year, month and day of month.
pub fn calendar_key(year: i32, month: u8, day: u8) -> (r: String)
    ensures
        r@ == key_text(year as int, month as int, day as int),
{
    let mut s = String::new();
    if year < 0 {
        push_char(&mut s, '-');
        let magnitude: u64 = (0i64 - year as i64) as u64;
        push_padded_decimal(&mut s, magnitude, 4);
    } else {
        push_padded_decimal(&mut s, year as u64, 4);
    }
    push_char(&mut s, '-');
    push_padded_decimal(&mut s, month as u64, 2);
    push_char(&mut s, '-');
    push_padded_decimal(&mut s, day as u64, 2);
    assert(s@ =~= key_text(year as int, month as int, day as int));
    s
}

/// The key a day's commits are filed under.
pub fn date_key(day: Day) -> (r: String)
    ensures
        r@ == day_key(day.julian as int),
{
    match calendar_date(day) {
        Some((y, m, d)) => calendar_key(y, m, d),
        None => String::new(),
    }
}

/// The English name of a month (1 for January).
pub open spec fn month_name(month: int) -> Seq<char> {
    if month == 1 {
        "January"@
    } else if month == 2 {
        "February"@
    } else if month == 3 {
        "March"@
    } else if month == 4 {
        "April"@
    } else if month == 5 {
        "May"@
    } else if month == 6 {
        "June"@
    } else if month == 7 {
        "July"@
    } else if month == 8 {
        "August"@
    } else if month == 9 {
        "September"@
    } else if month == 10 {
        "October"@
    } else if month == 11 {
        "November"@
    } else {
        "December"@
    }
}

fn month_str(month: u8) -> (r: &'static str)
    ensures
        r@ == month_name(month as int),
{
    if month == 1 {
        "January"
    } else if month == 2 {
        "February"
    } else if month == 3 {
        "March"
    } else if month == 4 {
        "April"
    } else if month == 5 {
        "May"
    } else if month == 6 {
        "June"
    } else if month == 7 {
        "July"
    } else if month == 8 {
        "August"
    } else if month == 9 {
        "September"
    } else if month == 10 {
        "October"
    } else if month == 11 {
        "November"
    } else {
        "December"
    }
}

/// The label of a month and day of month: the month's name, a space and the day.
pub open spec fn month_day_text(month: int, day: int) -> Seq<char> {
    month_name(month) + seq![' '] + decimal(day as nat)
}

pub fn month_day_label(month: u8, day: u8) -> (r: String)
    requires
        1 <= month <= 12,
    ensures
        r@ == month_day_text(month as int, day as int),
{
    let mut s = String::from_str(month_str(month));
    push_char(&mut s, ' ');
    crate::weekly::text::push_decimal(&mut s, day as u128);
    assert(s@ =~= month_day_text(month as int, day as int));
    s
}

/// The label of a day in the popup: "Today" for today, otherwise its month
/// and day; empty for a day the calendar does not know.
pub open spec fn day_label_text(day: int, today: int) -> Seq<char> {
    if day == today {
        "Today"@
    } else if in_calendar(day) {
        let c = calendar_of(day);
        month_day_text(c.1, c.2)
    } else {
        Seq::empty()
    }
}

pub fn day_label(day: Day, today: Day) -> (r: String)
    ensures
        r@ == day_label_text(day.julian as int, today.julian as int),
{
    if day == today {
        return String::from_str("Today");
    }
    match calendar_date(day) {
        Some((_y, m, d)) => month_day_label(m, d),
        None => String::new(),
    }
}

/// The label of a day in the popup, with today read from the clock.
pub fn date_label(day: Day) -> (r: String)
    ensures
        exists|today: int|
            in_calendar(today) && r@ == #[trigger] day_label_text(day.julian as int, today),
{
    let t = today();
    let r = day_label(day, t);
    assert(in_calendar(t.julian as int));
    r
}

/// The months are named in English, January to December for 1 to 12.
pub proof fn law_month_names()
    ensures
        month_name(1) == "January"@,
        month_name(2) == "February"@,
        month_name(3) == "March"@,
        month_name(4) == "April"@,
        month_name(5) == "May"@,
        month_name(6) == "June"@,
        month_name(7) == "July"@,
        month_name(8) == "August"@,
        month_name(9) == "September"@,
        month_name(10) == "October"@,
        month_name(11) == "November"@,
        month_name(12) == "December"@,
{
}
} // verus!
