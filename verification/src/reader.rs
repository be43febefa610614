//! Reading a log line back.
//!
//! A reader goes through a line from its first byte: it expects the keys in
//! their order and takes each literal up to its closing quote. What it finds
//! in a line is what the encoder put there, and nothing that a message or a
//! trace identifier holds can make it find anything else.

use vstd::prelude::*;
use vstd::utf8::encode_utf8;
use crate::encoder::{
    emitted, encoded, entry_line, fallback_line, is_entry, is_record_line, key_message,
    key_severity, key_time, key_trace, lemma_encoded_is_record_line, line_end,
};
use crate::json::{
    lemma_literal_has_no_control_byte, lemma_literal_reads_back, literal_value, read_literal,
};
use crate::severity::Severity;
use crate::timestamp::Timestamp;

verus! {

/// The values of the fields of a line.
pub struct EntryValues {
    pub severity: Seq<u8>,
    pub message: Seq<u8>,
    pub time: Seq<u8>,
    pub trace: Option<Seq<u8>>,
}

/// The bytes after `word`, if `bytes` begins with `word`.
pub open spec fn expect(bytes: Seq<u8>, word: Seq<u8>) -> Option<Seq<u8>> {
    if word.len() <= bytes.len() && bytes.take(word.len() as int) == word {
        Some(bytes.skip(word.len() as int))
    } else {
        None
    }
}

/// What a reader finds where it expects a key and its value: the value of
/// the literal after the key, and the bytes after the literal.
pub open spec fn read_field(bytes: Seq<u8>, key: Seq<u8>) -> Option<(Seq<u8>, Seq<u8>)> {
    match expect(bytes, key) {
        Some(at_value) => read_literal(at_value),
        None => None,
    }
}

/// What a reader finds after the time: the name of the trace and the end of
/// the line, or the end of the line at once.
pub open spec fn read_trace(bytes: Seq<u8>) -> Option<Option<Seq<u8>>> {
    match read_field(bytes, key_trace()) {
        Some((name, rest)) => if rest == line_end() {
            Some(Some(name))
        } else {
            None
        },
        None => if bytes == line_end() {
            Some(None)
        } else {
            None
        },
    }
}

/// What a reader finds in a line, if it is a line.
pub open spec fn read_entry(line: Seq<u8>) -> Option<EntryValues> {
    match read_field(line, key_severity()) {
        None => None,
        Some((severity, after_severity)) => match read_field(after_severity, key_message()) {
            None => None,
            Some((message, after_message)) => match read_field(after_message, key_time()) {
                None => None,
                Some((time, after_time)) => match read_trace(after_time) {
                    None => None,
                    Some(trace) => Some(EntryValues { severity, message, time, trace }),
                },
            },
        },
    }
}

/// After a word come the bytes that follow it.
pub proof fn lemma_expect_finds_the_word(word: Seq<u8>, rest: Seq<u8>)
    ensures
        expect(word + rest, word) == Some(rest),
{
    assert((word + rest).take(word.len() as int) =~= word);
    assert((word + rest).skip(word.len() as int) =~= rest);
}

/// The key of the trace is longer than the end of a line, so that neither can
/// be taken for the other.
pub proof fn lemma_trace_key_is_no_line_end()
    ensures
        key_trace().len() == 32,
        line_end().len() == 2,
        expect(line_end(), key_trace()) is None,
{
    reveal_strlit(",\"logging.googleapis.com/trace\":");
    reveal_strlit("}\n");
    vstd::utf8::is_ascii_chars_encode_utf8(",\"logging.googleapis.com/trace\":"@);
    vstd::utf8::is_ascii_chars_encode_utf8("}\n"@);
}

/// After a key and a literal, the reader has the value of the literal and is
/// left with the bytes that follow.
pub proof fn lemma_field_reads_back(key: Seq<u8>, lit: Seq<u8>, more: Seq<u8>)
    requires
        literal_value(lit) is Some,
    ensures
        read_field(key + lit + more, key) == Some((literal_value(lit).unwrap(), more)),
{
    assert(key + lit + more =~= key + (lit + more));
    lemma_expect_finds_the_word(key, lit + more);
    lemma_literal_reads_back(lit, more);
}

/// The part of a line after the time.
pub open spec fn line_tail(trace: Option<Seq<u8>>) -> Seq<u8> {
    (match trace {
        Some(name) => key_trace() + name,
        None => Seq::empty(),
    }) + line_end()
}

/// What the reader finds after the time is what was put there.
pub proof fn lemma_trace_reads_back(trace: Option<Seq<u8>>)
    requires
        trace matches Some(name) ==> literal_value(name) is Some,
    ensures
        read_trace(line_tail(trace)) == Some(
            match trace {
                Some(name) => literal_value(name),
                None => None,
            },
        ),
{
    match trace {
        Some(name) => {
            lemma_field_reads_back(key_trace(), name, line_end());
        },
        None => {
            lemma_trace_key_is_no_line_end();
            assert(line_tail(trace) =~= line_end());
        },
    }
}

/// A line is its parts one after the other, however they are grouped.
proof fn lemma_line_in_parts(
    severity: Seq<u8>,
    message: Seq<u8>,
    time: Seq<u8>,
    trace: Option<Seq<u8>>,
)
    ensures
        entry_line(severity, message, time, trace) == key_severity() + severity + (key_message()
            + message + (key_time() + time + line_tail(trace))),
{
    let tail = line_tail(trace);
    let from_time = key_time() + time + tail;
    let from_message = key_message() + message + from_time;
    assert(entry_line(severity, message, time, trace) =~= key_severity() + severity
        + from_message);
}

/// A line reads back. The reader finds in the line of four literals the
/// values of those literals: a trace if and only if one was put there, and
/// nothing else, whatever the values hold.
pub proof fn lemma_entry_reads_back(
    severity: Seq<u8>,
    message: Seq<u8>,
    time: Seq<u8>,
    trace: Option<Seq<u8>>,
)
    requires
        literal_value(severity) is Some,
        literal_value(message) is Some,
        literal_value(time) is Some,
        trace matches Some(name) ==> literal_value(name) is Some,
    ensures
        read_entry(entry_line(severity, message, time, trace)) == Some(
            EntryValues {
                severity: literal_value(severity).unwrap(),
                message: literal_value(message).unwrap(),
                time: literal_value(time).unwrap(),
                trace: match trace {
                    Some(name) => literal_value(name),
                    None => None,
                },
            },
        ),
{
    let line = entry_line(severity, message, time, trace);
    let tail = line_tail(trace);
    let from_time = key_time() + time + tail;
    let from_message = key_message() + message + from_time;
    lemma_line_in_parts(severity, message, time, trace);
    lemma_field_reads_back(key_severity(), severity, from_message);
    lemma_field_reads_back(key_message(), message, from_time);
    lemma_field_reads_back(key_time(), time, tail);
    lemma_trace_reads_back(trace);
}

/// A line says one thing only. If a line is an entry for some values, the
/// reader finds exactly these values in it; so a line is an entry for no
/// other values, and a line without a trace cannot be read as one with a
/// trace, whatever its message holds.
pub proof fn lemma_entry_is_read_one_way(
    line: Seq<u8>,
    severity: Seq<u8>,
    message: Seq<u8>,
    time: Seq<u8>,
    trace: Option<Seq<u8>>,
)
    requires
        is_entry(line, severity, message, time, trace),
    ensures
        read_entry(line) == Some(EntryValues { severity, message, time, trace }),
{
    let (s, m, t, n) = choose|s: Seq<u8>, m: Seq<u8>, t: Seq<u8>, n: Option<Seq<u8>>|
        {
            &&& #[trigger] entry_line(s, m, t, n) == line
            &&& literal_value(s) == Some(severity)
            &&& literal_value(m) == Some(message)
            &&& literal_value(t) == Some(time)
            &&& match n {
                Some(name) => trace is Some && literal_value(name) == trace,
                None => trace is None,
            }
        };
    lemma_entry_reads_back(s, m, t, n);
}

/// Whether `bytes` holds no control byte.
pub open spec fn is_printable(bytes: Seq<u8>) -> bool {
    forall|i: int| 0 <= i < bytes.len() ==> #[trigger] bytes[i] >= 0x20
}

/// Whether `line` is one line: it holds one line feed, which is its last
/// byte, and no other control byte.
pub open spec fn is_one_line(line: Seq<u8>) -> bool {
    &&& line.len() > 0
    &&& line[line.len() - 1] == 0x0a
    &&& is_printable(line.take(line.len() - 1))
}

/// The keys hold no control byte, and the end of a line is a brace and a
/// line feed.
proof fn lemma_keys_are_printable()
    ensures
        is_printable(key_severity()),
        is_printable(key_message()),
        is_printable(key_time()),
        is_printable(key_trace()),
        line_end() == seq![0x7du8, 0x0au8],
{
    reveal_strlit("{\"severity\":");
    reveal_strlit(",\"message\":");
    reveal_strlit(",\"time\":");
    reveal_strlit(",\"logging.googleapis.com/trace\":");
    reveal_strlit("}\n");
    vstd::utf8::is_ascii_chars_encode_utf8("{\"severity\":"@);
    vstd::utf8::is_ascii_chars_encode_utf8(",\"message\":"@);
    vstd::utf8::is_ascii_chars_encode_utf8(",\"time\":"@);
    vstd::utf8::is_ascii_chars_encode_utf8(",\"logging.googleapis.com/trace\":"@);
    vstd::utf8::is_ascii_chars_encode_utf8("}\n"@);
    assert(line_end() =~= seq![0x7du8, 0x0au8]);
}

/// The line of four literals is one line.
pub proof fn lemma_entry_is_one_line(
    severity: Seq<u8>,
    message: Seq<u8>,
    time: Seq<u8>,
    trace: Option<Seq<u8>>,
)
    requires
        literal_value(severity) is Some,
        literal_value(message) is Some,
        literal_value(time) is Some,
        trace matches Some(name) ==> literal_value(name) is Some,
    ensures
        is_one_line(entry_line(severity, message, time, trace)),
{
    lemma_keys_are_printable();
    lemma_literal_has_no_control_byte(severity);
    lemma_literal_has_no_control_byte(message);
    lemma_literal_has_no_control_byte(time);
    let name_part = match trace {
        Some(name) => key_trace() + name,
        None => Seq::empty(),
    };
    match trace {
        Some(name) => {
            lemma_literal_has_no_control_byte(name);
        },
        None => {},
    }
    assert(is_printable(name_part));
    let front = key_severity() + severity + key_message() + message + key_time() + time
        + name_part;
    assert(is_printable(front));
    let line = entry_line(severity, message, time, trace);
    assert(line == front + line_end());
    assert(line.take(line.len() - 1) =~= front + seq![0x7du8]);
}

/// The fallback line is one line.
pub proof fn lemma_fallback_is_one_line()
    ensures
        is_one_line(fallback_line()),
{
    reveal_strlit("{\"severity\":\"error\",\"message\":\"log record could not be encoded\"}\n");
    vstd::utf8::is_ascii_chars_encode_utf8(
        "{\"severity\":\"error\",\"message\":\"log record could not be encoded\"}\n"@,
    );
}

/// Whatever is emitted is one line, whatever the message and the trace
/// identifier hold: two lines that are written one after the other stay two
/// lines.
pub proof fn lemma_emitted_is_one_line(
    project_id: Seq<char>,
    severity: Severity,
    message: Seq<char>,
    ctx: Option<Seq<char>>,
    at: Timestamp,
)
    ensures
        is_one_line(emitted(project_id, severity, message, ctx, at)),
{
    if encoded(project_id, severity, message, ctx, at) is Ok {
        lemma_encoded_is_record_line(project_id, severity, message, ctx, at);
        lemma_record_line_is_one_line(
            emitted(project_id, severity, message, ctx, at),
            project_id,
            severity,
            message,
            ctx,
        );
    } else {
        lemma_fallback_is_one_line();
    }
}

/// The line of a record is one line.
pub proof fn lemma_record_line_is_one_line(
    line: Seq<u8>,
    project_id: Seq<char>,
    severity: Severity,
    message: Seq<char>,
    ctx: Option<Seq<char>>,
)
    requires
        is_record_line(line, project_id, severity, message, ctx),
    ensures
        is_one_line(line),
{
    let time = choose|time: Seq<u8>| #[trigger]
        crate::timestamp::is_rfc3339_millis(time) && is_entry(
            line,
            encode_utf8(severity.name_spec()),
            encode_utf8(message),
            time,
            match crate::encoder::trace_field(project_id, ctx) {
                Some(name) => Some(encode_utf8(name)),
                None => None,
            },
        );
    let sev = encode_utf8(severity.name_spec());
    let msg = encode_utf8(message);
    let trace = match crate::encoder::trace_field(project_id, ctx) {
        Some(name) => Some(encode_utf8(name)),
        None => None,
    };
    let (s, m, t, n) = choose|s: Seq<u8>, m: Seq<u8>, t: Seq<u8>, n: Option<Seq<u8>>|
        {
            &&& #[trigger] entry_line(s, m, t, n) == line
            &&& literal_value(s) == Some(sev)
            &&& literal_value(m) == Some(msg)
            &&& literal_value(t) == Some(time)
            &&& match n {
                Some(name) => trace is Some && literal_value(name) == trace,
                None => trace is None,
            }
        };
    lemma_entry_is_one_line(s, m, t, n);
}

/// The line of a record reads back as the record. The reader finds the
/// severity's name, the message, a time of the form
/// `YYYY-MM-DDTHH:MM:SS.sssZ`, and the name of the active trace if and only if
/// a trace is active: without an active trace it finds no trace, whatever the
/// message holds.
pub proof fn lemma_record_line_reads_back(
    line: Seq<u8>,
    project_id: Seq<char>,
    severity: Severity,
    message: Seq<char>,
    ctx: Option<Seq<char>>,
)
    requires
        is_record_line(line, project_id, severity, message, ctx),
    ensures
        read_entry(line) is Some,
        read_entry(line).unwrap().severity == encode_utf8(severity.name_spec()),
        read_entry(line).unwrap().message == encode_utf8(message),
        crate::timestamp::is_rfc3339_millis(read_entry(line).unwrap().time),
        read_entry(line).unwrap().trace == (match ctx {
            Some(id) => Some(encode_utf8(crate::context::trace_name_spec(project_id, id))),
            None => None,
        }),
{
    let time = choose|time: Seq<u8>| #[trigger]
        crate::timestamp::is_rfc3339_millis(time) && is_entry(
            line,
            encode_utf8(severity.name_spec()),
            encode_utf8(message),
            time,
            match crate::encoder::trace_field(project_id, ctx) {
                Some(name) => Some(encode_utf8(name)),
                None => None,
            },
        );
    lemma_entry_is_read_one_way(
        line,
        encode_utf8(severity.name_spec()),
        encode_utf8(message),
        time,
        match crate::encoder::trace_field(project_id, ctx) {
            Some(name) => Some(encode_utf8(name)),
            None => None,
        },
    );
}

} // verus!
