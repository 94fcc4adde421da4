//! Parsing of the fixed date and datetime formats, and the choice among
//! the input forms.
//!
//! A date string has the shape `YYYY-MM-DD` and denotes midnight UTC on
//! that date; a datetime string has the shape `YYYY-MM-DD HH:MM:SS` and
//! denotes that exact UTC instant. Anything else is rejected.

use vstd::prelude::*;
use crate::calendar::days_in_month;
use crate::calendar::epoch_seconds;
use crate::calendar::spec_epoch_seconds;
use crate::calendar::spec_is_valid_date;
use crate::calendar::spec_is_valid_time;
use crate::error::Error;
use crate::instant::CanonicalInstant;
use crate::instant::parse_epoch;
use crate::instant::spec_in_range;

verus! {

/// An ASCII decimal digit.
pub open spec fn spec_is_digit(c: char) -> bool {
    '0' as int <= c as int <= '9' as int
}

/// The numeric value of an ASCII decimal digit.
pub open spec fn spec_digit(c: char) -> int {
    c as int - '0' as int
}

/// Positions 0 through 9 spell a date: four digits, a hyphen, two digits,
/// a hyphen, two digits.
pub open spec fn spec_date_shape(s: Seq<char>) -> bool {
    &&& spec_is_digit(s[0])
    &&& spec_is_digit(s[1])
    &&& spec_is_digit(s[2])
    &&& spec_is_digit(s[3])
    &&& s[4] == '-'
    &&& spec_is_digit(s[5])
    &&& spec_is_digit(s[6])
    &&& s[7] == '-'
    &&& spec_is_digit(s[8])
    &&& spec_is_digit(s[9])
}

/// The whole string is exactly a `YYYY-MM-DD` date.
pub open spec fn spec_is_date_format(s: Seq<char>) -> bool {
    s.len() == 10 && spec_date_shape(s)
}

/// The whole string is exactly a `YYYY-MM-DD HH:MM:SS` datetime.
pub open spec fn spec_is_datetime_format(s: Seq<char>) -> bool {
    &&& s.len() == 19
    &&& spec_date_shape(s)
    &&& s[10] == ' '
    &&& spec_is_digit(s[11])
    &&& spec_is_digit(s[12])
    &&& s[13] == ':'
    &&& spec_is_digit(s[14])
    &&& spec_is_digit(s[15])
    &&& s[16] == ':'
    &&& spec_is_digit(s[17])
    &&& spec_is_digit(s[18])
}

pub open spec fn spec_date_year(s: Seq<char>) -> int {
    spec_digit(s[0]) * 1000 + spec_digit(s[1]) * 100 + spec_digit(s[2]) * 10 + spec_digit(s[3])
}

pub open spec fn spec_date_month(s: Seq<char>) -> int {
    spec_digit(s[5]) * 10 + spec_digit(s[6])
}

pub open spec fn spec_date_day(s: Seq<char>) -> int {
    spec_digit(s[8]) * 10 + spec_digit(s[9])
}

pub open spec fn spec_time_hour(s: Seq<char>) -> int {
    spec_digit(s[11]) * 10 + spec_digit(s[12])
}

pub open spec fn spec_time_minute(s: Seq<char>) -> int {
    spec_digit(s[14]) * 10 + spec_digit(s[15])
}

pub open spec fn spec_time_second(s: Seq<char>) -> int {
    spec_digit(s[17]) * 10 + spec_digit(s[18])
}

/// The instant a date string denotes: midnight UTC on that date, or
/// `None` when the string is not a well-formed, existing calendar date.
pub open spec fn spec_parse_date(s: Seq<char>) -> Option<int> {
    if spec_is_date_format(s) && spec_is_valid_date(
        spec_date_year(s),
        spec_date_month(s),
        spec_date_day(s),
    ) {
        Some(
            spec_epoch_seconds(
                spec_date_year(s),
                spec_date_month(s),
                spec_date_day(s),
                0,
                0,
                0,
            ),
        )
    } else {
        None
    }
}

/// The instant a datetime string denotes, or `None` when the string is
/// not a well-formed, existing calendar date and time of day.
pub open spec fn spec_parse_datetime(s: Seq<char>) -> Option<int> {
    if spec_is_datetime_format(s) && spec_is_valid_date(
        spec_date_year(s),
        spec_date_month(s),
        spec_date_day(s),
    ) && spec_is_valid_time(spec_time_hour(s), spec_time_minute(s), spec_time_second(s)) {
        Some(
            spec_epoch_seconds(
                spec_date_year(s),
                spec_date_month(s),
                spec_date_day(s),
                spec_time_hour(s),
                spec_time_minute(s),
                spec_time_second(s),
            ),
        )
    } else {
        None
    }
}

/// What a string parser owes for input `input` whose denoted instant is
/// `parsed`: the instant when there is one and it is encodable, an
/// invalid-timestamp error when it lies outside the encodable range, and
/// a parse error carrying the offending input otherwise.
pub open spec fn spec_parse_outcome(
    parsed: Option<int>,
    input: Seq<char>,
    r: Result<CanonicalInstant, Error>,
) -> bool {
    match parsed {
        Some(t) => if spec_in_range(t) {
            r matches Ok(ci) && ci.secs == t
        } else {
            r matches Err(e) && e is InvalidTimestamp
        },
        None => r matches Err(e) && e matches Error::ParseError { input: offending, .. }
            && offending@ == input,
    }
}

/// Build the parse error for an input, carrying the offending string.
fn parse_error(s: &str, cause: &str) -> (e: Error)
    ensures
        e matches Error::ParseError { input: offending, .. } && offending@ == s@,
{
    Error::ParseError { input: s.to_owned(), cause: cause.to_owned() }
}

/// Read the digit at position `i`, if there is one.
fn digit_at(s: &str, i: usize) -> (r: Option<i64>)
    requires
        i < s@.len(),
    ensures
        r is Some <==> spec_is_digit(s@[i as int]),
        r matches Some(d) ==> d == spec_digit(s@[i as int]) && 0 <= d <= 9,
{
    let c: char = s.get_char(i);
    let v: u32 = c as u32;
    if 48 <= v && v <= 57 {
        Some((v - 48) as i64)
    } else {
        None
    }
}

/// Parse a `YYYY-MM-DD` date string as midnight UTC on that date.
pub fn parse_date(s: &str) -> (r: Result<CanonicalInstant, Error>)
    ensures
        spec_parse_outcome(spec_parse_date(s@), s@, r),
{
    if s.unicode_len() != 10 {
        return Err(parse_error(s, "expected format YYYY-MM-DD"));
    }
    if !(s.get_char(4) == '-' && s.get_char(7) == '-') {
        return Err(parse_error(s, "expected format YYYY-MM-DD"));
    }
    let fields = (
        digit_at(s, 0),
        digit_at(s, 1),
        digit_at(s, 2),
        digit_at(s, 3),
        digit_at(s, 5),
        digit_at(s, 6),
        digit_at(s, 8),
        digit_at(s, 9),
    );
    match fields {
        (
            Some(y0),
            Some(y1),
            Some(y2),
            Some(y3),
            Some(m0),
            Some(m1),
            Some(d0),
            Some(d1),
        ) => {
            let y: i64 = y0 * 1000 + y1 * 100 + y2 * 10 + y3;
            let m: i64 = m0 * 10 + m1;
            let d: i64 = d0 * 10 + d1;
            if 1 <= m && m <= 12 && 1 <= d && d <= days_in_month(y, m) {
                parse_epoch(epoch_seconds(y, m, d, 0, 0, 0))
            } else {
                Err(parse_error(s, "no such calendar date"))
            }
        },
        _ => Err(parse_error(s, "expected format YYYY-MM-DD")),
    }
}

/// Parse a `YYYY-MM-DD HH:MM:SS` datetime string as that exact UTC
/// instant.
pub fn parse_datetime(s: &str) -> (r: Result<CanonicalInstant, Error>)
    ensures
        spec_parse_outcome(spec_parse_datetime(s@), s@, r),
{
    if s.unicode_len() != 19 {
        return Err(parse_error(s, "expected format YYYY-MM-DD HH:MM:SS"));
    }
    if !(s.get_char(4) == '-' && s.get_char(7) == '-' && s.get_char(10) == ' '
        && s.get_char(13) == ':' && s.get_char(16) == ':') {
        return Err(parse_error(s, "expected format YYYY-MM-DD HH:MM:SS"));
    }
    let date_fields = (
        digit_at(s, 0),
        digit_at(s, 1),
        digit_at(s, 2),
        digit_at(s, 3),
        digit_at(s, 5),
        digit_at(s, 6),
        digit_at(s, 8),
        digit_at(s, 9),
    );
    let time_fields = (
        digit_at(s, 11),
        digit_at(s, 12),
        digit_at(s, 14),
        digit_at(s, 15),
        digit_at(s, 17),
        digit_at(s, 18),
    );
    match (date_fields, time_fields) {
        (
            (
                Some(y0),
                Some(y1),
                Some(y2),
                Some(y3),
                Some(m0),
                Some(m1),
                Some(d0),
                Some(d1),
            ),
            (Some(h0), Some(h1), Some(mi0), Some(mi1), Some(s0), Some(s1)),
        ) => {
            let y: i64 = y0 * 1000 + y1 * 100 + y2 * 10 + y3;
            let m: i64 = m0 * 10 + m1;
            let d: i64 = d0 * 10 + d1;
            let h: i64 = h0 * 10 + h1;
            let mi: i64 = mi0 * 10 + mi1;
            let sec: i64 = s0 * 10 + s1;
            if 1 <= m && m <= 12 && 1 <= d && d <= days_in_month(y, m) {
                if h <= 23 && mi <= 59 && sec <= 59 {
                    parse_epoch(epoch_seconds(y, m, d, h, mi, sec))
                } else {
                    Err(parse_error(s, "no such time of day"))
                }
            } else {
                Err(parse_error(s, "no such calendar date"))
            }
        },
        _ => Err(parse_error(s, "expected format YYYY-MM-DD HH:MM:SS")),
    }
}

/// Choose among the input forms as the tool does: an epoch integer when
/// one is given, else the datetime string, else fail for want of an
/// argument.
pub fn select_input(timestamp: Option<i64>, datetime: Option<&str>) -> (r: Result<
    CanonicalInstant,
    Error,
>)
    ensures
        timestamp matches Some(t) ==> ((spec_in_range(t as int) <==> r is Ok) && (spec_in_range(
            t as int,
        ) ==> (r matches Ok(ci) && ci.secs == t)) && (!spec_in_range(t as int) ==> (
        r matches Err(e)
            && e is InvalidTimestamp))),
        timestamp is None ==> (datetime matches Some(s) ==> spec_parse_outcome(
            spec_parse_datetime(s@),
            s@,
            r,
        )),
        (timestamp is None && datetime is None) ==> (r matches Err(e) && e is MissingArgument),
{
    match (timestamp, datetime) {
        (Some(t), _) => parse_epoch(t),
        (None, Some(s)) => parse_datetime(s),
        (None, None) => Err(Error::MissingArgument),
    }
}

} // verus!

