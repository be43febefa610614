use tracing_gcp::json::{check_quoted, decode_literal, literal_encodes, quote, QuoteError};
use tracing_gcp::text::{bytes_eq, push_bytes, push_str, str_eq};

#[test]
fn quote_writes_a_literal() {
    assert_eq!(quote("info"), Ok(b"\"info\"".to_vec()));
    assert_eq!(quote(""), Ok(b"\"\"".to_vec()));
    assert_eq!(quote("a\"b"), Ok(b"\"a\\\"b\"".to_vec()));
    assert_eq!(quote("a\\b"), Ok(b"\"a\\\\b\"".to_vec()));
    assert_eq!(quote("\n\r\t\u{8}\u{c}"), Ok(b"\"\\n\\r\\t\\b\\f\"".to_vec()));
    assert_eq!(quote("\u{0}\u{1f}"), Ok(b"\"\\u0000\\u001f\"".to_vec()));
    assert_eq!(quote("\u{e9}"), Ok("\"\u{e9}\"".as_bytes().to_vec()));
}

#[test]
fn quoted_text_reads_back() {
    for text in ["", "a", "\"", "\\", "\u{0}", "a\nb", "\u{7f}", "\u{1f600}", "/", "\\u0041"] {
        let lit = quote(text).unwrap();
        assert_eq!(decode_literal(&lit), Some(text.as_bytes().to_vec()));
        assert!(literal_encodes(&lit, text.as_bytes()));
    }
}

#[test]
fn decode_reads_every_escape() {
    assert_eq!(decode_literal(b"\"\""), Some(vec![]));
    assert_eq!(decode_literal(b"\"abc\""), Some(b"abc".to_vec()));
    assert_eq!(decode_literal(b"\"\\\"\""), Some(b"\"".to_vec()));
    assert_eq!(decode_literal(b"\"\\\\\""), Some(b"\\".to_vec()));
    assert_eq!(decode_literal(b"\"\\/\""), Some(b"/".to_vec()));
    assert_eq!(decode_literal(b"\"\\b\\f\\n\\r\\t\""), Some(vec![8, 12, 10, 13, 9]));
    assert_eq!(decode_literal(b"\"\\u0000\""), Some(vec![0]));
    assert_eq!(decode_literal(b"\"\\u001f\""), Some(vec![0x1f]));
    assert_eq!(decode_literal(b"\"\\u001F\""), Some(vec![0x1f]));
    assert_eq!(decode_literal(b"\"\\u0041\""), Some(vec![0x41]));
    assert_eq!(decode_literal(b"\"\\u007f\""), Some(vec![0x7f]));
    assert_eq!(decode_literal(b"\"a\\u000a\\nb\""), Some(vec![b'a', 10, 10, b'b']));
}

#[test]
fn decode_refuses_what_is_no_literal() {
    assert_eq!(decode_literal(b""), None);
    assert_eq!(decode_literal(b"\""), None);
    assert_eq!(decode_literal(b"abc"), None);
    assert_eq!(decode_literal(b"\"abc"), None);
    assert_eq!(decode_literal(b"abc\""), None);
    assert_eq!(decode_literal(b"\"a\"b\""), None);
    assert_eq!(decode_literal(b"\"a\nb\""), None);
    assert_eq!(decode_literal(b"\"a\x1fb\""), None);
    assert_eq!(decode_literal(b"\"\\\""), None);
    assert_eq!(decode_literal(b"\"\\x\""), None);
    assert_eq!(decode_literal(b"\"\\u00\""), None);
    assert_eq!(decode_literal(b"\"\\u00g0\""), None);
    assert_eq!(decode_literal(b"\"\\u0080\""), None);
    assert_eq!(decode_literal(b"\"\\u0100\""), None);
    assert_eq!(decode_literal(b"\"\\u00e9\""), None);
}

#[test]
fn literal_encodes_compares_the_value() {
    assert!(literal_encodes(b"\"a\\nb\"", b"a\nb"));
    assert!(!literal_encodes(b"\"a\\nb\"", b"a\\nb"));
    assert!(!literal_encodes(b"a", b"a"));
    assert!(!literal_encodes(b"\"a\"", b"b"));
}

#[test]
fn an_unfaithful_literal_is_an_error() {
    assert_eq!(check_quoted("a", Ok(b"\"a\"".to_vec())), Ok(b"\"a\"".to_vec()));
    assert_eq!(check_quoted("a", Ok(b"\"b\"".to_vec())), Err(QuoteError::Unfaithful));
    assert_eq!(check_quoted("a", Ok(b"a".to_vec())), Err(QuoteError::Unfaithful));
    assert_eq!(check_quoted("a\"b", Ok(b"\"a\"b\"".to_vec())), Err(QuoteError::Unfaithful));
}

#[test]
fn a_serializer_error_is_an_error() {
    let error = serde_json::from_str::<serde_json::Value>("{").unwrap_err();
    assert_eq!(check_quoted("a", Err(error)), Err(QuoteError::Rejected));
}

#[test]
fn bytes_and_text_compare_by_content() {
    assert!(bytes_eq(b"", b""));
    assert!(bytes_eq(b"abc", b"abc"));
    assert!(!bytes_eq(b"abc", b"abd"));
    assert!(!bytes_eq(b"abc", b"ab"));
    assert!(str_eq("trace_id", "trace_id"));
    assert!(!str_eq("trace_id", "trace-id"));
    assert!(!str_eq("", "a"));
    assert!(str_eq("\u{e9}", "\u{e9}"));
}

#[test]
fn pushing_appends() {
    let mut out = b"ab".to_vec();
    push_bytes(&mut out, b"cd");
    push_str(&mut out, "\u{e9}");
    assert_eq!(out, "abcd\u{e9}".as_bytes().to_vec());
}
