use vstd::prelude::*;
use crate::weekly::calendar::{now_utc, parse_rfc3339, rfc3339_moment, Moment};
use crate::weekly::text::{decimal, push_char, push_decimal};

verus! {

/// The whole seconds from one instant (seconds, nanoseconds) to a later one,
/// rounded toward zero, as `time`'s `Duration::whole_seconds` counts them.
pub open spec fn whole_seconds_between(
    later_seconds: int,
    later_nanos: int,
    earlier_seconds: int,
    earlier_nanos: int,
) -> int {
    let total = (later_seconds - earlier_seconds) * 1_000_000_000 + (later_nanos - earlier_nanos);
    if total >= 0 {
        total / 1_000_000_000
    } else {
        -((-total) / 1_000_000_000)
    }
}

/// The whole seconds from `then` to `now`, rounded toward zero.
pub fn elapsed_seconds(now: Moment, then: Moment) -> (r: i128)
    ensures
        r == whole_seconds_between(
            now.unix_seconds as int,
            now.nanosecond as int,
            then.unix_seconds as int,
            then.nanosecond as int,
        ),
{
    let seconds: i128 = now.unix_seconds as i128 - then.unix_seconds as i128;
    assert(-18_446_744_073_709_551_615 <= seconds <= 18_446_744_073_709_551_615);
    let scaled: i128 = seconds * 1_000_000_000;
    let total: i128 = scaled + (now.nanosecond as i128 - then.nanosecond as i128);
    if total >= 0 {
        total / 1_000_000_000
    } else {
        0 - ((0 - total) / 1_000_000_000)
    }
}

/// The unit an age is told in, and how many of it: minutes under an hour,
/// hours under a day, days under a week, weeks under 30 days, months (of 30
/// days) under 365 days, and years (of 365 days) beyond.
pub open spec fn age_unit(seconds: int) -> (int, Seq<char>) {
    if seconds < 3600 {
        (seconds / 60, "minute"@)
    } else if seconds < 86_400 {
        (seconds / 3600, "hour"@)
    } else if seconds < 604_800 {
        (seconds / 86_400, "day"@)
    } else if seconds < 2_592_000 {
        (seconds / 604_800, "week"@)
    } else if seconds < 31_536_000 {
        (seconds / 2_592_000, "month"@)
    } else {
        (seconds / 31_536_000, "year"@)
    }
}

/// The status line for counts cached the given number of seconds ago (a
/// negative age counts as none).
pub open spec fn age_text(seconds: int) -> Seq<char> {
    let s = if seconds < 0 {
        0
    } else {
        seconds
    };
    if s < 60 {
        "Cached just now"@
    } else {
        let (value, unit) = age_unit(s);
        "Cached "@ + decimal(value as nat) + seq![' '] + unit + (if value == 1 {
            Seq::empty()
        } else {
            seq!['s']
        }) + " ago"@
    }
}

pub fn cached_age_label(seconds: i128) -> (r: String)
    ensures
        r@ == age_text(seconds as int),
{
    let s: i128 = if seconds < 0 {
        0
    } else {
        seconds
    };
    if s < 60 {
        return String::from_str("Cached just now");
    }
    let (value, unit): (i128, &str) = if s < 3600 {
        (s / 60, "minute")
    } else if s < 86_400 {
        (s / 3600, "hour")
    } else if s < 604_800 {
        (s / 86_400, "day")
    } else if s < 2_592_000 {
        (s / 604_800, "week")
    } else if s < 31_536_000 {
        (s / 2_592_000, "month")
    } else {
        (s / 31_536_000, "year")
    };
    assert(0 <= value);
    let mut out = String::from_str("Cached ");
    push_decimal(&mut out, value as u128);
    push_char(&mut out, ' ');
    out.append(unit);
    if value != 1 {
        push_char(&mut out, 's');
    }
    out.append(" ago");
    assert(out@ =~= age_text(seconds as int));
    out
}

/// The status line for counts cached at an RFC 3339 time, measured against
/// the clock; "Cached" when the time cannot be read.
pub fn cached_label(cached_at: &str) -> (r: String)
    ensures
        rfc3339_moment(cached_at@) is None ==> r@ == "Cached"@,
        rfc3339_moment(cached_at@) matches Some(then) ==> exists|now_seconds: int, now_nanos: int|
            r@ == #[trigger] age_text(
                whole_seconds_between(now_seconds, now_nanos, then.0, then.1),
            ),
{
    match parse_rfc3339(cached_at) {
        None => String::from_str("Cached"),
        Some(then) => {
            let now = now_utc();
            let age = elapsed_seconds(now, then);
            let r = cached_age_label(age);
            let ghost t = rfc3339_moment(cached_at@)->Some_0;
            assert(r@ == age_text(
                whole_seconds_between(now.unix_seconds as int, now.nanosecond as int, t.0, t.1),
            ));
            r
        },
    }
}

/// An age of at least a minute is told as a whole number, at least 1, of the
/// largest unit that fits in it: minutes (60 s), hours (3600 s), days
/// (86400 s), weeks (604800 s), months of 30 days (2592000 s) or years of 365
/// days (31536000 s); the number is how many whole units the age holds.
pub proof fn law_age_in_largest_fitting_unit(s: int)
    requires
        s >= 60,
    ensures
        age_unit(s).0 >= 1,
        age_unit(s).1 == "minute"@ || age_unit(s).1 == "hour"@ || age_unit(s).1 == "day"@
            || age_unit(s).1 == "week"@ || age_unit(s).1 == "month"@ || age_unit(s).1 == "year"@,
        age_unit(s).1 == "minute"@ ==> age_unit(s).0 == s / 60 && s < 3600,
        age_unit(s).1 == "hour"@ ==> age_unit(s).0 == s / 3600 && 3600 <= s < 86_400,
        age_unit(s).1 == "day"@ ==> age_unit(s).0 == s / 86_400 && 86_400 <= s < 604_800,
        age_unit(s).1 == "week"@ ==> age_unit(s).0 == s / 604_800 && 604_800 <= s < 2_592_000,
        age_unit(s).1 == "month"@ ==> age_unit(s).0 == s / 2_592_000 && 2_592_000 <= s
            < 31_536_000,
        age_unit(s).1 == "year"@ ==> age_unit(s).0 == s / 31_536_000 && 31_536_000 <= s,
{
    reveal_strlit("minute");
    reveal_strlit("hour");
    reveal_strlit("day");
    reveal_strlit("week");
    reveal_strlit("month");
    reveal_strlit("year");
    assert("minute"@.len() == 6 && "hour"@.len() == 4 && "day"@.len() == 3 && "week"@.len() == 4
        && "month"@.len() == 5 && "year"@.len() == 4);
    assert("hour"@[0] != "week"@[0] && "hour"@[0] != "year"@[0] && "week"@[0] != "year"@[0]);
}

/// The status line of an age of at least a minute tells that number and unit,
/// the unit in the plural unless the number is 1.
pub proof fn law_age_text_tells_the_unit(seconds: int)
    requires
        seconds >= 60,
    ensures
        age_text(seconds) == "Cached "@ + decimal(age_unit(seconds).0 as nat) + seq![' ']
            + age_unit(seconds).1 + (if age_unit(seconds).0 == 1 {
            Seq::empty()
        } else {
            seq!['s']
        }) + " ago"@,
{
}
} // verus!
