//! Time as the prompt shows it: how long ago something happened, and what
//! the clock reads in a time zone.

use vstd::prelude::*;
use vstd::string::StringExecFns;
use std::fmt::Write;
use chrono::DateTime;
use chrono_tz::Tz;
use crate::text::{signed_decimal, signed_decimal_text};

verus! {

/// The seconds of a minute.
pub const MINUTE: i64 = 60;

/// The seconds of an hour.
pub const HOUR: i64 = 3600;

/// The seconds of a day.
pub const DAY: i64 = 86400;

/// `a / b` rounded towards zero, for a positive `b`.
pub open spec fn quotient_towards_zero(a: int, b: int) -> int {
    if a >= 0 {
        a / b
    } else {
        -((-a) / b)
    }
}

/// The number that the phrase for `seconds` shows: seconds below a minute,
/// whole minutes below an hour, whole hours below a day, and whole days
/// otherwise, which includes every negative span.
pub open spec fn elapsed_count(seconds: int) -> int {
    if 0 <= seconds < MINUTE {
        seconds
    } else if MINUTE <= seconds < HOUR {
        seconds / (MINUTE as int)
    } else if HOUR <= seconds < DAY {
        seconds / (HOUR as int)
    } else {
        quotient_towards_zero(seconds, DAY as int)
    }
}

/// The unit that the phrase for `seconds` counts in.
pub open spec fn elapsed_unit(seconds: int) -> Seq<char> {
    if 0 <= seconds < MINUTE {
        "second"@
    } else if MINUTE <= seconds < HOUR {
        "minute"@
    } else if HOUR <= seconds < DAY {
        "hour"@
    } else {
        "day"@
    }
}

/// A span of `seconds` in words: the count, the unit, and an `s` unless the
/// count is one.
pub open spec fn elapsed_phrase(seconds: int) -> Seq<char> {
    let phrase = signed_decimal(elapsed_count(seconds)) + " "@ + elapsed_unit(seconds);
    if elapsed_count(seconds) == 1 {
        phrase
    } else {
        phrase + "s"@
    }
}

/// Writes the span from `earlier` to `later`, both in seconds since the Unix
/// epoch, in words.
pub fn time_to_string(earlier: i64, later: i64) -> (phrase: String)
    ensures
        phrase@ == elapsed_phrase(later - earlier),
{
    let span: i128 = later as i128 - earlier as i128;
    let count: i64;
    let unit: &str;
    if 0 <= span && span < MINUTE as i128 {
        count = span as i64;
        unit = "second";
    } else if MINUTE as i128 <= span && span < HOUR as i128 {
        count = (span / (MINUTE as i128)) as i64;
        unit = "minute";
    } else if HOUR as i128 <= span && span < DAY as i128 {
        count = (span / (HOUR as i128)) as i64;
        unit = "hour";
    } else if span >= 0 {
        count = (span / (DAY as i128)) as i64;
        unit = "day";
    } else {
        count = -(((-span) / (DAY as i128)) as i64);
        unit = "day";
    }
    let mut phrase = signed_decimal_text(count);
    phrase.append(" ");
    phrase.append(unit);
    if count != 1 {
        phrase.append("s");
    }
    phrase
}

/// The strftime pattern after which the clock is written: date, time of day
/// and the offset from UTC.
pub const CLOCK_PATTERN: &'static str = "%Y-%m-%d %H:%M:%S %z";

/// The name of the zone in which the clock is read where none is set.
pub const UTC: &'static str = "UTC";

/// What chrono writes for the instant `unix_seconds` as seen in the time zone
/// that the tz database calls `zone`, after the strftime pattern `pattern`;
/// nothing where the zone is unknown, the instant is out of chrono's range
/// or the pattern is not one it can write.
pub uninterp spec fn zoned_clock_text(unix_seconds: int, zone: Seq<char>, pattern: Seq<char>) -> Option<Seq<char>>;

/// Looks `zone` up with chrono-tz's `Tz::from_str`, makes the instant with
/// chrono's `DateTime::from_timestamp`, moves it into the zone with
/// `DateTime::with_timezone` and writes it with `DateTime::format`. The
/// text depends on the three arguments alone; an unknown zone, an instant
/// out of range or a pattern that cannot be written gives `None`.
#[verifier::external_body]
fn zoned_clock(unix_seconds: i64, zone: &str, pattern: &str) -> (text: Option<String>)
    ensures
        text is Some == zoned_clock_text(unix_seconds as int, zone@, pattern@) is Some,
        text matches Some(written) ==> zoned_clock_text(unix_seconds as int, zone@, pattern@)
            == Some(written@),
{
    let tz: Tz = zone.parse().ok()?;
    let instant = DateTime::from_timestamp(unix_seconds, 0)?;
    let mut written = String::new();
    write!(written, "{}", instant.with_timezone(&tz).format(pattern)).ok()?;
    Some(written)
}

/// What the clock reads at `now` in `zone`, or in UTC where no zone is given;
/// empty where chrono cannot write it.
pub open spec fn clock_reading(now: int, zone: Option<Seq<char>>) -> Seq<char> {
    let name = match zone {
        Some(z) => z,
        None => UTC@,
    };
    match zoned_clock_text(now, name, CLOCK_PATTERN@) {
        Some(text) => text,
        None => Seq::empty(),
    }
}

/// The clock at `now`, in seconds since the Unix epoch, as seen in `zone`.
pub fn clock(now: i64, zone: &Option<String>) -> (text: String)
    ensures
        text@ == clock_reading(
            now as int,
            match *zone {
                Some(z) => Some(z@),
                None => None,
            },
        ),
{
    let name = match zone {
        Some(z) => z.as_str(),
        None => UTC,
    };
    match zoned_clock(now, name, CLOCK_PATTERN) {
        Some(text) => text,
        None => String::new(),
    }
}

} // verus!
