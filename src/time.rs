use vstd::prelude::*;

use crate::text::push_char;

verus! {

/// Why a timestamp could not be read or written.
#[derive(Debug, Clone, Copy, PartialEq, Eq, Structural)]
pub enum TimeError {
    /// The text is not a TeamCity timestamp such as `20240131T235959+0000`.
    Parse,
    /// The instant lies outside the years -9999 to 9999.
    OutOfRange,
}

/// The instant (seconds since the Unix epoch) that the `time` crate reads
/// from a TeamCity timestamp, `YYYYMMDDTHHMMSS` with optional fractional
/// seconds and a `+HHMM` offset; `None` where the text is not one.
pub uninterp spec fn tc_epoch(s: Seq<char>) -> Option<int>;

/// The `time` crate's rendering, as `31 Jan 23:59`, of a TeamCity timestamp
/// in its own offset; `None` where the text is not one.
pub uninterp spec fn tc_human_date(s: Seq<char>) -> Option<Seq<char>>;

/// Relies on time::format_description::parse_owned (version 2) and
/// time::OffsetDateTime::parse and unix_timestamp: the instant that a TeamCity
/// timestamp denotes.
#[verifier::external_body]
fn tc_epoch_secs(s: &str) -> (r: Option<i64>)
    ensures
        match r {
            Some(n) => tc_epoch(s@) == Some(n as int),
            None => tc_epoch(s@) is None,
        },
{
    let format = ::time::format_description::parse_owned::<2>(
        "[year][month][day]T[hour][minute][second][optional [.[subsecond]]][offset_hour sign:mandatory][offset_minute]",
    ).ok()?;
    ::time::OffsetDateTime::parse(s, &format).ok().map(|dt| dt.unix_timestamp())
}

/// Relies on time::OffsetDateTime::parse and format, with the descriptions
/// of a TeamCity timestamp and of `[day] [month repr:short] [hour repr:24]:[minute]`.
#[verifier::external_body]
fn tc_human(s: &str) -> (r: Option<String>)
    ensures
        match r {
            Some(t) => tc_human_date(s@) == Some(t@),
            None => tc_human_date(s@) is None,
        },
{
    let input = ::time::format_description::parse_owned::<2>(
        "[year][month][day]T[hour][minute][second][optional [.[subsecond]]][offset_hour sign:mandatory][offset_minute]",
    ).ok()?;
    let output = ::time::format_description::parse_owned::<2>("[day] [month repr:short] [hour repr:24]:[minute]").ok()?;
    ::time::OffsetDateTime::parse(s, &input).ok()?.format(&output).ok()
}

/// Reads a TeamCity timestamp as seconds since the Unix epoch.
pub fn parse_tc_datetime_to_epoch(s: &str) -> (r: Result<i64, TimeError>)
    ensures
        match r {
            Ok(n) => tc_epoch(s@) == Some(n as int),
            Err(e) => e == TimeError::Parse && tc_epoch(s@) is None,
        },
{
    match tc_epoch_secs(s) {
        Some(n) => Ok(n),
        None => Err(TimeError::Parse),
    }
}

/// Renders a TeamCity timestamp for a table cell, as `31 Jan 23:59`.
pub fn format_datetime_to_human_readable_string(date: &str) -> (r: Result<String, TimeError>)
    ensures
        match r {
            Ok(t) => tc_human_date(date@) == Some(t@),
            Err(e) => e == TimeError::Parse && tc_human_date(date@) is None,
        },
{
    match tc_human(date) {
        Some(t) => Ok(t),
        None => Err(TimeError::Parse),
    }
}

/// The first second of the year -9999, in Unix time.
pub const MIN_TIMESTAMP: i64 = -377705116800;

/// The last second of the year 9999, in Unix time.
pub const MAX_TIMESTAMP: i64 = 253402300799;

/// `n` (below 100) as two decimal digits.
pub open spec fn two_digits(n: int) -> Seq<char> {
    seq![(('0' as int) + n / 10) as char, (('0' as int) + n % 10) as char]
}

/// The time of day of the instant `secs` (UTC) as `HH:MM:SS`; for a
/// duration below a day this is the duration itself.
pub open spec fn clock_text(secs: int) -> Seq<char> {
    let t = secs % 86400;
    two_digits(t / 3600) + seq![':'] + two_digits((t % 3600) / 60) + seq![':'] + two_digits(t % 60)
}

fn push_two_digits(s: &mut String, n: i64)
    requires
        0 <= n < 100,
    ensures
        final(s)@ == old(s)@ + two_digits(n as int),
{
    let tens = (('0' as u8) + (n / 10) as u8) as char;
    let ones = (('0' as u8) + (n % 10) as u8) as char;
    push_char(s, tens);
    push_char(s, ones);
    proof {
        assert(final(s)@ =~= old(s)@ + two_digits(n as int));
    }
}

/// Renders a number of seconds as `HH:MM:SS`, as the time of day of that
/// Unix instant; instants outside the years -9999 to 9999 are refused.
pub fn format_duration(secs: i64) -> (r: Result<String, TimeError>)
    ensures
        match r {
            Ok(t) => MIN_TIMESTAMP <= secs <= MAX_TIMESTAMP && t@ == clock_text(secs as int),
            Err(e) => e == TimeError::OutOfRange && !(MIN_TIMESTAMP <= secs <= MAX_TIMESTAMP),
        },
{
    if secs < MIN_TIMESTAMP || secs > MAX_TIMESTAMP {
        return Err(TimeError::OutOfRange);
    }
    let t = secs % 86400;
    let t = if t < 0 { t + 86400 } else { t };
    assert(t == (secs as int) % 86400);
    let mut s = String::new();
    push_two_digits(&mut s, t / 3600);
    push_char(&mut s, ':');
    push_two_digits(&mut s, (t % 3600) / 60);
    push_char(&mut s, ':');
    push_two_digits(&mut s, t % 60);
    proof {
        assert(s@ =~= clock_text(secs as int));
    }
    Ok(s)
}

} // verus!
