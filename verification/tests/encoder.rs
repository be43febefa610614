use tracing_gcp::config::{check_project_id, ConfigurationError};
use tracing_gcp::context::{trace_name, TraceContext};
use tracing_gcp::encoder::{
    assemble, encode_at, fallback, try_encode_at, EncodeError, GcpJsonEncoder, Record,
};
use tracing_gcp::get_gcp_project_id;
use tracing_gcp::severity::Severity;
use tracing_gcp::timestamp::{check_rfc3339_millis, TimeError, Timestamp};

fn parse(line: &[u8]) -> serde_json::Value {
    assert_eq!(line.last(), Some(&b'\n'));
    assert_eq!(line.iter().filter(|b| **b == b'\n').count(), 1);
    serde_json::from_slice(&line[..line.len() - 1]).unwrap()
}

fn field<'a>(entry: &'a serde_json::Value, key: &str) -> Option<&'a str> {
    entry.get(key).and_then(|v| v.as_str())
}

const TRACE_KEY: &str = "logging.googleapis.com/trace";

#[test]
fn project_id_is_the_configured_one() {
    assert_eq!(get_gcp_project_id(), "PROJECT_ID_123");
}

#[test]
fn severity_names_are_lowercase_and_in_full() {
    assert_eq!(Severity::Error.name(), "error");
    assert_eq!(Severity::Warn.name(), "warn");
    assert_eq!(Severity::Info.name(), "info");
    assert_eq!(Severity::Debug.name(), "debug");
    assert_eq!(Severity::Trace.name(), "trace");
}

#[test]
fn every_severity_is_encoded_under_its_name() {
    let at = Timestamp::new(1_431_648_000, 0);
    let all = [
        (Severity::Error, "error"),
        (Severity::Warn, "warn"),
        (Severity::Info, "info"),
        (Severity::Debug, "debug"),
        (Severity::Trace, "trace"),
    ];
    for (severity, name) in all {
        let line = encode_at("p", severity, "m", &TraceContext::none(), at);
        assert_eq!(field(&parse(&line), "severity"), Some(name));
    }
}

#[test]
fn verbosity_orders_the_severities() {
    assert_eq!(Severity::Error.verbosity(), 1);
    assert_eq!(Severity::Warn.verbosity(), 2);
    assert_eq!(Severity::Info.verbosity(), 3);
    assert_eq!(Severity::Debug.verbosity(), 4);
    assert_eq!(Severity::Trace.verbosity(), 5);
    assert!(Severity::Error.passes(Severity::Info));
    assert!(Severity::Info.passes(Severity::Info));
    assert!(!Severity::Debug.passes(Severity::Info));
    assert!(Severity::Trace.passes(Severity::Trace));
    assert!(!Severity::Warn.passes(Severity::Error));
}

#[test]
fn trace_name_joins_project_and_trace() {
    assert_eq!(trace_name("proj-x", "456"), "projects/proj-x/traces/456");
    assert_eq!(trace_name("", ""), "projects//traces/");
}

#[test]
fn context_trace_name_follows_the_active_trace() {
    let active = TraceContext::with_trace_id("456".to_string());
    assert!(active.is_active());
    assert_eq!(active.trace_name("proj-x"), Some("projects/proj-x/traces/456".to_string()));
    let idle = TraceContext::none();
    assert!(!idle.is_active());
    assert_eq!(idle.trace_name("proj-x"), None);
}

#[test]
fn lookup_outcomes_become_contexts() {
    assert_eq!(TraceContext::from_lookup(None).trace_id, None);
    assert_eq!(TraceContext::from_lookup(Some(None)).trace_id, None);
    assert_eq!(
        TraceContext::from_lookup(Some(Some("456".to_string()))).trace_id,
        Some("456".to_string())
    );
}

#[test]
fn line_without_trace_is_exact() {
    let at = Timestamp::new(1_431_648_000, 0);
    let line = encode_at("PROJECT_ID_123", Severity::Info, "x", &TraceContext::none(), at);
    assert_eq!(
        String::from_utf8(line).unwrap(),
        "{\"severity\":\"info\",\"message\":\"x\",\"time\":\"2015-05-15T00:00:00.000Z\"}\n"
    );
}

#[test]
fn line_with_trace_is_exact() {
    let at = Timestamp::new(1_516_991_409, 453_829_000);
    let ctx = TraceContext::with_trace_id("456".to_string());
    let line = encode_at("proj-x", Severity::Warn, "Doing something", &ctx, at);
    assert_eq!(
        String::from_utf8(line).unwrap(),
        "{\"severity\":\"warn\",\"message\":\"Doing something\",\"time\":\"2018-01-26T18:30:09.453Z\",\"logging.googleapis.com/trace\":\"projects/proj-x/traces/456\"}\n"
    );
}

#[test]
fn trace_field_is_absent_without_a_trace() {
    let line = encode_at("proj-x", Severity::Info, "x", &TraceContext::none(), Timestamp::new(0, 0));
    let entry = parse(&line);
    let object = entry.as_object().unwrap();
    assert!(!object.contains_key(TRACE_KEY));
    assert_eq!(object.len(), 3);
}

#[test]
fn trace_field_names_project_and_trace() {
    let ctx = TraceContext::with_trace_id("456".to_string());
    let line = encode_at("proj-x", Severity::Info, "x", &ctx, Timestamp::new(0, 0));
    let entry = parse(&line);
    assert_eq!(field(&entry, TRACE_KEY), Some("projects/proj-x/traces/456"));
    assert_eq!(entry.as_object().unwrap().len(), 4);
}

#[test]
fn time_field_has_millisecond_form() {
    let points = [
        (0, 0),
        (1, 999_999_999),
        (1_431_648_000, 1_000_000),
        (951_782_400, 123_456_789),
        (253_402_300_799, 999_000_000),
        (-1, 500_000_000),
        (-62_167_219_200, 0),
    ];
    for (secs, nanos) in points {
        let line = encode_at("p", Severity::Info, "m", &TraceContext::none(), Timestamp::new(secs, nanos));
        let entry = parse(&line);
        let time = field(&entry, "time").unwrap();
        assert!(check_rfc3339_millis(time.as_bytes()), "{time}");
        assert_eq!(Timestamp::new(secs, nanos).to_rfc3339_millis(), Ok(time.to_string()));
    }
}

#[test]
fn time_text_is_exact() {
    assert_eq!(Timestamp::new(0, 0).to_rfc3339_millis(), Ok("1970-01-01T00:00:00.000Z".to_string()));
    assert_eq!(
        Timestamp::new(951_782_400, 123_456_789).to_rfc3339_millis(),
        Ok("2000-02-29T00:00:00.123Z".to_string())
    );
    assert_eq!(
        Timestamp::new(253_402_300_799, 999_999_999).to_rfc3339_millis(),
        Ok("9999-12-31T23:59:59.999Z".to_string())
    );
    assert_eq!(
        Timestamp::new(-62_167_219_200, 0).to_rfc3339_millis(),
        Ok("0000-01-01T00:00:00.000Z".to_string())
    );
}

#[test]
fn time_outside_four_digit_years_is_malformed() {
    assert_eq!(Timestamp::new(253_402_300_800, 0).to_rfc3339_millis(), Err(TimeError::Malformed));
    assert_eq!(Timestamp::new(-62_167_219_201, 0).to_rfc3339_millis(), Err(TimeError::Malformed));
}

#[test]
fn time_outside_the_calendar_is_out_of_range() {
    assert_eq!(Timestamp::new(i64::MAX, 0).to_rfc3339_millis(), Err(TimeError::OutOfRange));
    assert_eq!(Timestamp::new(i64::MIN, 0).to_rfc3339_millis(), Err(TimeError::OutOfRange));
    assert_eq!(Timestamp::new(0, 2_000_000_000).to_rfc3339_millis(), Err(TimeError::OutOfRange));
}

#[test]
fn time_form_check_accepts_only_the_form() {
    assert!(check_rfc3339_millis(b"2018-01-26T18:30:09.453Z"));
    assert!(!check_rfc3339_millis(b"2018-01-26T18:30:09.453+00:00"));
    assert!(!check_rfc3339_millis(b"2018-01-26T18:30:09Z"));
    assert!(!check_rfc3339_millis(b"2018-01-26 18:30:09.453Z"));
    assert!(!check_rfc3339_millis(b"2018-01-26T18:30:09.45aZ"));
    assert!(!check_rfc3339_millis(b"2018-01-26T18:30:09.453z"));
    assert!(!check_rfc3339_millis(b"+10000-01-01T00:00:00.000Z"));
    assert!(!check_rfc3339_millis(b""));
}

#[test]
fn clock_gives_a_time_of_the_form() {
    let text = Timestamp::now().to_rfc3339_millis().unwrap();
    assert!(check_rfc3339_millis(text.as_bytes()));
}

#[test]
fn clock_gives_the_present() {
    let before = std::time::SystemTime::now()
        .duration_since(std::time::UNIX_EPOCH)
        .unwrap()
        .as_secs() as i64;
    let now = Timestamp::now();
    let after = std::time::SystemTime::now()
        .duration_since(std::time::UNIX_EPOCH)
        .unwrap()
        .as_secs() as i64;
    assert!(before <= now.secs && now.secs <= after);
    assert!(now.nanos < 1_000_000_000);
}

#[test]
fn encoding_errors_name_the_time() {
    let ctx = TraceContext::none();
    assert_eq!(
        try_encode_at("p", Severity::Info, "m", &ctx, Timestamp::new(i64::MAX, 0)),
        Err(EncodeError::Time(TimeError::OutOfRange))
    );
    assert_eq!(
        try_encode_at("p", Severity::Info, "m", &ctx, Timestamp::new(253_402_300_800, 0)),
        Err(EncodeError::Time(TimeError::Malformed))
    );
}

#[test]
fn failed_encoding_emits_the_fallback_line() {
    let line = encode_at("p", Severity::Info, "m", &TraceContext::none(), Timestamp::new(i64::MAX, 0));
    assert_eq!(line, fallback());
    assert_eq!(
        String::from_utf8(line.clone()).unwrap(),
        "{\"severity\":\"error\",\"message\":\"log record could not be encoded\"}\n"
    );
    let entry = parse(&line);
    assert_eq!(field(&entry, "severity"), Some("error"));
    assert_eq!(field(&entry, "message"), Some("log record could not be encoded"));
}

#[test]
fn message_is_escaped_and_reads_back() {
    let messages = [
        "plain",
        "",
        "say \"hi\"",
        "back\\slash",
        "line\nfeed\rreturn\ttab",
        "\u{0}\u{1}\u{8}\u{c}\u{1f}\u{7f}",
        "\",\"logging.googleapis.com/trace\":\"projects/p/traces/forged",
        "caf\u{e9} \u{4e16}\u{754c} \u{1f600}",
        "{\"severity\":\"error\"}\n",
    ];
    for message in messages {
        let line = encode_at("p", Severity::Info, message, &TraceContext::none(), Timestamp::new(0, 0));
        let entry = parse(&line);
        assert_eq!(field(&entry, "message"), Some(message));
        assert_eq!(entry.as_object().unwrap().len(), 3);
        assert_ne!(line, fallback());
    }
}

#[test]
fn trace_id_and_project_are_escaped_and_read_back() {
    let ctx = TraceContext::with_trace_id("4\"5\n6".to_string());
    let line = encode_at("pro\\j", Severity::Info, "m", &ctx, Timestamp::new(0, 0));
    let entry = parse(&line);
    assert_eq!(field(&entry, TRACE_KEY), Some("projects/pro\\j/traces/4\"5\n6"));
}

#[test]
fn assemble_frames_the_literals() {
    let line = assemble(b"\"info\"", b"\"m\"", b"\"t\"", None);
    assert_eq!(
        String::from_utf8(line).unwrap(),
        "{\"severity\":\"info\",\"message\":\"m\",\"time\":\"t\"}\n"
    );
    let line = assemble(b"\"info\"", b"\"m\"", b"\"t\"", Some(b"\"n\""));
    assert_eq!(
        String::from_utf8(line).unwrap(),
        "{\"severity\":\"info\",\"message\":\"m\",\"time\":\"t\",\"logging.googleapis.com/trace\":\"n\"}\n"
    );
}

#[test]
fn encoder_encodes_a_record_as_of_a_time() {
    let encoder = GcpJsonEncoder::new("PROJECT_ID_123".to_string());
    let record = Record { severity: Severity::Info, message: "Doing something".to_string() };
    let ctx = TraceContext::with_trace_id("456".to_string());
    let line = encoder.encode_at(&record, &ctx, Timestamp::new(1_431_648_000, 0));
    assert_eq!(
        String::from_utf8(line).unwrap(),
        "{\"severity\":\"info\",\"message\":\"Doing something\",\"time\":\"2015-05-15T00:00:00.000Z\",\"logging.googleapis.com/trace\":\"projects/PROJECT_ID_123/traces/456\"}\n"
    );
}

#[test]
fn encoder_encodes_a_record_as_of_now() {
    let encoder = GcpJsonEncoder::new("PROJECT_ID_123".to_string());
    let record = Record { severity: Severity::Error, message: "x".to_string() };
    let line = encoder.encode(&record, &TraceContext::none());
    let entry = parse(&line);
    assert_eq!(field(&entry, "severity"), Some("error"));
    assert_eq!(field(&entry, "message"), Some("x"));
    assert!(check_rfc3339_millis(field(&entry, "time").unwrap().as_bytes()));
    assert!(entry.get(TRACE_KEY).is_none());
}

#[test]
fn a_missing_project_id_is_refused_at_startup() {
    assert_eq!(check_project_id(""), Err(ConfigurationError::MissingProjectId));
    assert_eq!(check_project_id("PROJECT_ID_123"), Ok(()));
    assert_eq!(check_project_id(&get_gcp_project_id()), Ok(()));
    assert_eq!(
        ConfigurationError::MissingProjectId.message(),
        "the project identifier is missing"
    );
}
