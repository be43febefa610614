//! Points in time, and their text in a log line.
//!
//! The clock is the system's and the calendar is `chrono`'s. The library
//! checks the text that `chrono` writes against the form that a log line
//! needs before it uses it.

use vstd::prelude::*;
use vstd::utf8::encode_utf8;
use crate::context::id_view;

verus! {

/// A point in time: whole seconds since 1970-01-01T00:00:00Z, and the
/// nanoseconds since the last whole second.
#[derive(Clone, Copy, Debug, PartialEq, Eq, Structural)]
pub struct Timestamp {
    pub secs: i64,
    pub nanos: u32,
}

/// Whether a byte is an ASCII digit.
pub open spec fn is_digit(b: u8) -> bool {
    0x30 <= b <= 0x39
}

/// Whether `text` has the form `YYYY-MM-DDTHH:MM:SS.sssZ`: four digits, a
/// hyphen, two digits, a hyphen, two digits, `T`, two digits, a colon, two
/// digits, a colon, two digits, a full stop, three digits and `Z`.
pub open spec fn is_rfc3339_millis(text: Seq<u8>) -> bool {
    &&& text.len() == 24
    &&& is_digit(text[0]) && is_digit(text[1]) && is_digit(text[2]) && is_digit(text[3])
    &&& text[4] == 0x2d
    &&& is_digit(text[5]) && is_digit(text[6])
    &&& text[7] == 0x2d
    &&& is_digit(text[8]) && is_digit(text[9])
    &&& text[10] == 0x54
    &&& is_digit(text[11]) && is_digit(text[12])
    &&& text[13] == 0x3a
    &&& is_digit(text[14]) && is_digit(text[15])
    &&& text[16] == 0x3a
    &&& is_digit(text[17]) && is_digit(text[18])
    &&& text[19] == 0x2e
    &&& is_digit(text[20]) && is_digit(text[21]) && is_digit(text[22])
    &&& text[23] == 0x5a
}

fn digit_at(text: &[u8], i: usize) -> (b: bool)
    requires
        i < text@.len(),
    ensures
        b == is_digit(text@[i as int]),
{
    0x30 <= text[i] && text[i] <= 0x39
}

/// Whether `text` has the form `YYYY-MM-DDTHH:MM:SS.sssZ`.
pub fn check_rfc3339_millis(text: &[u8]) -> (b: bool)
    ensures
        b == is_rfc3339_millis(text@),
{
    if text.len() != 24 {
        return false;
    }
    digit_at(text, 0) && digit_at(text, 1) && digit_at(text, 2) && digit_at(text, 3)
        && text[4] == 0x2d && digit_at(text, 5) && digit_at(text, 6) && text[7] == 0x2d
        && digit_at(text, 8) && digit_at(text, 9) && text[10] == 0x54 && digit_at(text, 11)
        && digit_at(text, 12) && text[13] == 0x3a && digit_at(text, 14) && digit_at(text, 15)
        && text[16] == 0x3a && digit_at(text, 17) && digit_at(text, 18) && text[19] == 0x2e
        && digit_at(text, 20) && digit_at(text, 21) && digit_at(text, 22) && text[23] == 0x5a
}

/// What `chrono` writes for the point in time that is `secs` seconds and
/// `nanos` nanoseconds after 1970-01-01T00:00:00Z, as RFC 3339 with
/// milliseconds and `Z`: the text, or `None` where `chrono` has no such point
/// in time.
pub uninterp spec fn rfc3339_millis_text(secs: int, nanos: int) -> Option<Seq<char>>;

/// Calls `chrono::DateTime::from_timestamp` and, on what it returns,
/// `to_rfc3339_opts` with `SecondsFormat::Millis` and `Z` for UTC. The
/// contract gives the outcome its name, [`rfc3339_millis_text`], and claims
/// nothing else of it.
#[verifier::external_body]
fn format_rfc3339_millis(secs: i64, nanos: u32) -> (text: Option<String>)
    ensures
        id_view(text) == rfc3339_millis_text(secs as int, nanos as int),
{
    match chrono::DateTime::from_timestamp(secs, nanos) {
        Some(t) => Some(t.to_rfc3339_opts(chrono::SecondsFormat::Millis, true)),
        None => None,
    }
}

/// Reads the system clock and has `chrono` turn the reading into a point in
/// time (its `From<SystemTime>` for `DateTime<Utc>`), of which the seconds
/// and nanoseconds are handed back. A clock that stands before 1970 gives
/// negative seconds. Nothing is claimed of the result. `chrono` panics only
/// where the clock stands outside its calendar, more than some 262 000 years
/// from the year 0.
#[verifier::external_body]
fn read_clock() -> (now: (i64, u32)) {
    let t: chrono::DateTime<chrono::Utc> = chrono::DateTime::from(std::time::SystemTime::now());
    (t.timestamp(), t.timestamp_subsec_nanos())
}

/// Why a point in time has no text for a log line.
#[derive(Clone, Copy, Debug, PartialEq, Eq, Structural)]
pub enum TimeError {
    /// The calendar has no such point in time.
    OutOfRange,
    /// The text of the point in time has not the form `YYYY-MM-DDTHH:MM:SS.sssZ`
    /// (its year has more than four digits, or lies before the year 0).
    Malformed,
}

/// The text of a point in time for a log line: what the calendar writes, if
/// it has the form `YYYY-MM-DDTHH:MM:SS.sssZ`.
pub open spec fn time_text(secs: int, nanos: int) -> Result<Seq<char>, TimeError> {
    match rfc3339_millis_text(secs, nanos) {
        Some(text) => if is_rfc3339_millis(encode_utf8(text)) {
            Ok(text)
        } else {
            Err(TimeError::Malformed)
        },
        None => Err(TimeError::OutOfRange),
    }
}

/// The text of the outcome of [`Timestamp::to_rfc3339_millis`].
pub open spec fn text_view(r: Result<String, TimeError>) -> Result<Seq<char>, TimeError> {
    match r {
        Ok(text) => Ok(text@),
        Err(e) => Err(e),
    }
}

/// Decides what becomes of the calendar's answer: a text of the form
/// `YYYY-MM-DDTHH:MM:SS.sssZ` is kept, anything else is an error.
pub fn check_time_text(written: Option<String>) -> (r: Result<String, TimeError>)
    ensures
        match written {
            Some(text) => if is_rfc3339_millis(encode_utf8(text@)) {
                r == Ok::<String, TimeError>(text)
            } else {
                r == Err::<String, TimeError>(TimeError::Malformed)
            },
            None => r == Err::<String, TimeError>(TimeError::OutOfRange),
        },
{
    match written {
        Some(text) => {
            if check_rfc3339_millis(text.as_str().as_bytes()) {
                Ok(text)
            } else {
                Err(TimeError::Malformed)
            }
        },
        None => Err(TimeError::OutOfRange),
    }
}

impl Timestamp {
    /// The point in time that is `secs` seconds and `nanos` nanoseconds after
    /// 1970-01-01T00:00:00Z.
    pub fn new(secs: i64, nanos: u32) -> (t: Timestamp)
        ensures
            t.secs == secs,
            t.nanos == nanos,
    {
        Timestamp { secs, nanos }
    }

    /// The present moment, as the system clock gives it. A clock that stands
    /// before 1970 gives negative seconds.
    pub fn now() -> Timestamp {
        let (secs, nanos) = read_clock();
        Timestamp { secs, nanos }
    }

    /// The text of the point in time for a log line, `YYYY-MM-DDTHH:MM:SS.sssZ`.
    pub fn to_rfc3339_millis(&self) -> (r: Result<String, TimeError>)
        ensures
            text_view(r) == time_text(self.secs as int, self.nanos as int),
            r matches Ok(text) ==> is_rfc3339_millis(encode_utf8(text@)),
    {
        check_time_text(format_rfc3339_millis(self.secs, self.nanos))
    }
}

} // verus!
