//! The encoder: from a record, the trace context and a point in time to one
//! line of JSON.
//!
//! A line is an object with the keys `severity`, `message` and `time`, and
//! with the key `logging.googleapis.com/trace` if and only if a trace is
//! active. Its values are string literals. The line ends with a line feed.

use vstd::prelude::*;
use vstd::utf8::encode_utf8;
use crate::context::{trace_name_spec, TraceContext};
use crate::json::{literal_value, quote, quoted, QuoteError};
use crate::severity::Severity;
use crate::text::{push_bytes, push_str};
use crate::timestamp::{is_rfc3339_millis, time_text, TimeError, Timestamp};

verus! {

/// One log occurrence: how serious it is and what it says.
#[derive(Clone, Debug)]
pub struct Record {
    pub severity: Severity,
    pub message: String,
}

/// A field of a log line.
#[derive(Clone, Copy, Debug, PartialEq, Eq, Structural)]
pub enum Field {
    Severity,
    Message,
    Time,
    Trace,
}

/// Why a record could not be encoded.
#[derive(Clone, Copy, Debug, PartialEq, Eq, Structural)]
pub enum EncodeError {
    /// The point in time has no text for a log line.
    Time(TimeError),
    /// The value of a field could not be written as a literal.
    Quote(Field, QuoteError),
}

/// What opens a line: the brace and the key of the severity.
pub open spec fn key_severity() -> Seq<u8> {
    encode_utf8("{\"severity\":"@)
}

/// What stands between the severity and the message.
pub open spec fn key_message() -> Seq<u8> {
    encode_utf8(",\"message\":"@)
}

/// What stands between the message and the time.
pub open spec fn key_time() -> Seq<u8> {
    encode_utf8(",\"time\":"@)
}

/// What stands between the time and the name of the trace.
pub open spec fn key_trace() -> Seq<u8> {
    encode_utf8(",\"logging.googleapis.com/trace\":"@)
}

/// What closes a line: the brace and a line feed.
pub open spec fn line_end() -> Seq<u8> {
    encode_utf8("}\n"@)
}

/// The line with the given literals as its values.
pub open spec fn entry_line(
    severity: Seq<u8>,
    message: Seq<u8>,
    time: Seq<u8>,
    trace: Option<Seq<u8>>,
) -> Seq<u8> {
    key_severity() + severity + key_message() + message + key_time() + time + (match trace {
        Some(name) => key_trace() + name,
        None => Seq::empty(),
    }) + line_end()
}

/// The line that stands for a record that could not be encoded.
pub open spec fn fallback_line() -> Seq<u8> {
    encode_utf8("{\"severity\":\"error\",\"message\":\"log record could not be encoded\"}\n"@)
}

/// Whether `line` is a line whose values stand for the given texts: an
/// object with the three keys `severity`, `message` and `time`, then the
/// trace key if and only if `trace` is given, and each value a literal that
/// reads back as the bytes of its text.
pub open spec fn is_entry(
    line: Seq<u8>,
    severity: Seq<u8>,
    message: Seq<u8>,
    time: Seq<u8>,
    trace: Option<Seq<u8>>,
) -> bool {
    exists|s: Seq<u8>, m: Seq<u8>, t: Seq<u8>, n: Option<Seq<u8>>|
        {
            &&& #[trigger] entry_line(s, m, t, n) == line
            &&& literal_value(s) == Some(severity)
            &&& literal_value(m) == Some(message)
            &&& literal_value(t) == Some(time)
            &&& match n {
                Some(name) => trace is Some && literal_value(name) == trace,
                None => trace is None,
            }
        }
}

/// The name of the active trace, if a trace is active.
pub open spec fn trace_field(project_id: Seq<char>, ctx: Option<Seq<char>>) -> Option<Seq<char>> {
    match ctx {
        Some(id) => Some(trace_name_spec(project_id, id)),
        None => None,
    }
}

/// The outcome of encoding: the line, or the first thing that went wrong, in
/// the order severity, message, time, trace.
pub open spec fn encoded(
    project_id: Seq<char>,
    severity: Severity,
    message: Seq<char>,
    ctx: Option<Seq<char>>,
    at: Timestamp,
) -> Result<Seq<u8>, EncodeError> {
    match quoted(severity.name_spec()) {
        Err(e) => Err(EncodeError::Quote(Field::Severity, e)),
        Ok(s) => match quoted(message) {
            Err(e) => Err(EncodeError::Quote(Field::Message, e)),
            Ok(m) => match time_text(at.secs as int, at.nanos as int) {
                Err(e) => Err(EncodeError::Time(e)),
                Ok(text) => match quoted(text) {
                    Err(e) => Err(EncodeError::Quote(Field::Time, e)),
                    Ok(t) => match trace_field(project_id, ctx) {
                        None => Ok(entry_line(s, m, t, None)),
                        Some(name) => match quoted(name) {
                            Err(e) => Err(EncodeError::Quote(Field::Trace, e)),
                            Ok(n) => Ok(entry_line(s, m, t, Some(n))),
                        },
                    },
                },
            },
        },
    }
}

/// The line that is emitted: the encoded line, or the fallback line where
/// encoding went wrong.
pub open spec fn emitted(
    project_id: Seq<char>,
    severity: Severity,
    message: Seq<char>,
    ctx: Option<Seq<char>>,
    at: Timestamp,
) -> Seq<u8> {
    match encoded(project_id, severity, message, ctx, at) {
        Ok(line) => line,
        Err(_) => fallback_line(),
    }
}

/// Whether `line` is the line of a record with the given severity and
/// message, emitted while `ctx` was the trace context, at whatever time: its
/// values read back as the severity's name, as the message, as a time of the
/// form `YYYY-MM-DDTHH:MM:SS.sssZ`, and as the name of the active trace, which
/// is there if and only if a trace is active.
pub open spec fn is_record_line(
    line: Seq<u8>,
    project_id: Seq<char>,
    severity: Severity,
    message: Seq<char>,
    ctx: Option<Seq<char>>,
) -> bool {
    exists|time: Seq<u8>| #[trigger]
        is_rfc3339_millis(time) && is_entry(
            line,
            encode_utf8(severity.name_spec()),
            encode_utf8(message),
            time,
            match trace_field(project_id, ctx) {
                Some(name) => Some(encode_utf8(name)),
                None => None,
            },
        )
}

/// Whatever the serializer and the calendar answer, a line that encoding
/// yields is the line of the record.
pub proof fn lemma_encoded_is_record_line(
    project_id: Seq<char>,
    severity: Severity,
    message: Seq<char>,
    ctx: Option<Seq<char>>,
    at: Timestamp,
)
    requires
        encoded(project_id, severity, message, ctx, at) is Ok,
    ensures
        is_record_line(
            encoded(project_id, severity, message, ctx, at).unwrap(),
            project_id,
            severity,
            message,
            ctx,
        ),
{
    let s = quoted(severity.name_spec()).unwrap();
    let m = quoted(message).unwrap();
    let text = time_text(at.secs as int, at.nanos as int).unwrap();
    let t = quoted(text).unwrap();
    let n = match trace_field(project_id, ctx) {
        Some(name) => Some(quoted(name).unwrap()),
        None => None,
    };
    let line = encoded(project_id, severity, message, ctx, at).unwrap();
    assert(entry_line(s, m, t, n) == line);
    assert(is_rfc3339_millis(encode_utf8(text)));
}

/// What is emitted is the line of the record, or the fallback line.
pub proof fn lemma_emitted_is_record_or_fallback(
    project_id: Seq<char>,
    severity: Severity,
    message: Seq<char>,
    ctx: Option<Seq<char>>,
    at: Timestamp,
)
    ensures
        emitted(project_id, severity, message, ctx, at) == fallback_line() || is_record_line(
            emitted(project_id, severity, message, ctx, at),
            project_id,
            severity,
            message,
            ctx,
        ),
{
    if encoded(project_id, severity, message, ctx, at) is Ok {
        lemma_encoded_is_record_line(project_id, severity, message, ctx, at);
    }
}

/// The bytes of the outcome of encoding.
pub open spec fn line_view(r: Result<Vec<u8>, EncodeError>) -> Result<Seq<u8>, EncodeError> {
    match r {
        Ok(line) => Ok(line@),
        Err(e) => Err(e),
    }
}

/// Puts a line together from the literals of its values.
pub fn assemble(severity: &[u8], message: &[u8], time: &[u8], trace: Option<&[u8]>) -> (line:
    Vec<u8>)
    ensures
        line@ == entry_line(
            severity@,
            message@,
            time@,
            match trace {
                Some(name) => Some(name@),
                None => None,
            },
        ),
{
    let mut line: Vec<u8> = Vec::new();
    push_str(&mut line, "{\"severity\":");
    push_bytes(&mut line, severity);
    push_str(&mut line, ",\"message\":");
    push_bytes(&mut line, message);
    push_str(&mut line, ",\"time\":");
    push_bytes(&mut line, time);
    match trace {
        Some(name) => {
            push_str(&mut line, ",\"logging.googleapis.com/trace\":");
            push_bytes(&mut line, name);
            assert(line@ =~= key_severity() + severity@ + key_message() + message@ + key_time()
                + time@ + (key_trace() + name@));
        },
        None => {
            assert(line@ =~= key_severity() + severity@ + key_message() + message@ + key_time()
                + time@ + Seq::<u8>::empty());
        },
    }
    push_str(&mut line, "}\n");
    line
}

/// The line that stands for a record that could not be encoded.
pub fn fallback() -> (line: Vec<u8>)
    ensures
        line@ == fallback_line(),
{
    let mut line: Vec<u8> = Vec::new();
    push_str(&mut line, "{\"severity\":\"error\",\"message\":\"log record could not be encoded\"}\n");
    assert(line@ =~= fallback_line());
    line
}

/// Encodes a record of the given severity and message as of the point in
/// time `at`, or says what went wrong. A line that comes back holds the
/// severity's lowercase name, the message, a time of the form
/// `YYYY-MM-DDTHH:MM:SS.sssZ`, and the name of the active trace if and only if
/// a trace is active.
pub fn try_encode_at(
    project_id: &str,
    severity: Severity,
    message: &str,
    ctx: &TraceContext,
    at: Timestamp,
) -> (r: Result<Vec<u8>, EncodeError>)
    ensures
        line_view(r) == encoded(project_id@, severity, message@, ctx@, at),
        r matches Ok(line) ==> is_record_line(line@, project_id@, severity, message@, ctx@),
{
    let severity_lit = match quote(severity.name()) {
        Ok(lit) => lit,
        Err(e) => {
            return Err(EncodeError::Quote(Field::Severity, e));
        },
    };
    let message_lit = match quote(message) {
        Ok(lit) => lit,
        Err(e) => {
            return Err(EncodeError::Quote(Field::Message, e));
        },
    };
    let text = match at.to_rfc3339_millis() {
        Ok(text) => text,
        Err(e) => {
            return Err(EncodeError::Time(e));
        },
    };
    let time_lit = match quote(text.as_str()) {
        Ok(lit) => lit,
        Err(e) => {
            return Err(EncodeError::Quote(Field::Time, e));
        },
    };
    match ctx.trace_name(project_id) {
        Some(name) => {
            let trace_lit = match quote(name.as_str()) {
                Ok(lit) => lit,
                Err(e) => {
                    return Err(EncodeError::Quote(Field::Trace, e));
                },
            };
            let line = assemble(
                severity_lit.as_slice(),
                message_lit.as_slice(),
                time_lit.as_slice(),
                Some(trace_lit.as_slice()),
            );
            proof {
                lemma_encoded_is_record_line(project_id@, severity, message@, ctx@, at);
            }
            Ok(line)
        },
        None => {
            let line = assemble(
                severity_lit.as_slice(),
                message_lit.as_slice(),
                time_lit.as_slice(),
                None,
            );
            proof {
                lemma_encoded_is_record_line(project_id@, severity, message@, ctx@, at);
            }
            Ok(line)
        },
    }
}

/// Encodes a record as of the point in time `at`. Where encoding goes wrong
/// the fallback line comes back in place of the record's line, so that the
/// record leaves a trace of itself and the caller is not disturbed.
pub fn encode_at(
    project_id: &str,
    severity: Severity,
    message: &str,
    ctx: &TraceContext,
    at: Timestamp,
) -> (line: Vec<u8>)
    ensures
        line@ == emitted(project_id@, severity, message@, ctx@, at),
        line@ == fallback_line() || is_record_line(line@, project_id@, severity, message@, ctx@),
{
    match try_encode_at(project_id, severity, message, ctx, at) {
        Ok(line) => line,
        Err(_) => fallback(),
    }
}

/// Encodes records for one project.
#[derive(Debug)]
pub struct GcpJsonEncoder {
    pub gcp_project_id: String,
}

impl GcpJsonEncoder {
    /// The encoder for the project `gcp_project_id`.
    pub fn new(gcp_project_id: String) -> (encoder: GcpJsonEncoder)
        ensures
            encoder.gcp_project_id == gcp_project_id,
    {
        GcpJsonEncoder { gcp_project_id }
    }

    /// Encodes `record` as of the point in time `at`: the record's line, or
    /// the fallback line where encoding goes wrong.
    pub fn encode_at(&self, record: &Record, ctx: &TraceContext, at: Timestamp) -> (line: Vec<u8>)
        ensures
            line@ == emitted(self.gcp_project_id@, record.severity, record.message@, ctx@, at),
            line@ == fallback_line() || is_record_line(
                line@,
                self.gcp_project_id@,
                record.severity,
                record.message@,
                ctx@,
            ),
    {
        encode_at(
            self.gcp_project_id.as_str(),
            record.severity,
            record.message.as_str(),
            ctx,
            at,
        )
    }

    /// Encodes `record` as of now: the line is that of [`Self::encode_at`]
    /// for the point in time that the clock gives.
    pub fn encode(&self, record: &Record, ctx: &TraceContext) -> (line: Vec<u8>)
        ensures
            exists|at: Timestamp|
                line@ == #[trigger] emitted(
                    self.gcp_project_id@,
                    record.severity,
                    record.message@,
                    ctx@,
                    at,
                ),
            line@ == fallback_line() || is_record_line(
                line@,
                self.gcp_project_id@,
                record.severity,
                record.message@,
                ctx@,
            ),
    {
        let at = Timestamp::now();
        self.encode_at(record, ctx, at)
    }
}

} // verus!
