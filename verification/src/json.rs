//! JSON string literals: writing them with `serde_json`, and reading back
//! what was written.
//!
//! A text is written as a literal by `serde_json`. The library does not take
//! the literal on trust: it reads the literal back with [`decode_literal`] and
//! accepts it only if it holds exactly the bytes of the text. A literal that
//! can be read back holds no control byte and no quote that would end it
//! early, so it cannot break the line that it is put into.

use vstd::prelude::*;
use vstd::utf8::encode_utf8;
use crate::text::bytes_eq;

verus! {

/// The byte `"`, which opens and closes a literal.
pub const QUOTE: u8 = 0x22;

/// The byte `\`, which begins an escape.
pub const BACKSLASH: u8 = 0x5c;

/// The byte that the two-byte escape `\` `b` stands for, if there is such an
/// escape.
pub open spec fn simple_escape(b: u8) -> Option<u8> {
    if b == 0x22 {
        Some(0x22u8)
    } else if b == 0x5c {
        Some(0x5cu8)
    } else if b == 0x2f {
        Some(0x2fu8)
    } else if b == 0x62 {
        Some(0x08u8)
    } else if b == 0x66 {
        Some(0x0cu8)
    } else if b == 0x6e {
        Some(0x0au8)
    } else if b == 0x72 {
        Some(0x0du8)
    } else if b == 0x74 {
        Some(0x09u8)
    } else {
        None
    }
}

/// The value of a hexadecimal digit, in either case.
pub open spec fn hex_digit(b: u8) -> Option<u8> {
    if 0x30 <= b <= 0x39 {
        Some((b - 0x30) as u8)
    } else if 0x61 <= b <= 0x66 {
        Some((b - 0x61 + 10) as u8)
    } else if 0x41 <= b <= 0x46 {
        Some((b - 0x41 + 10) as u8)
    } else {
        None
    }
}

/// The first item of the inside of a literal: the byte it stands for and the
/// number of bytes it takes. An item is a plain byte (neither a control byte,
/// nor a quote, nor a backslash), a two-byte escape, or the six-byte escape
/// `\u00XY` of an ASCII byte. Anything else is no item.
pub open spec fn first_item(body: Seq<u8>) -> Option<(u8, int)> {
    if body.len() == 0 {
        None
    } else if body[0] == BACKSLASH {
        if body.len() >= 2 && simple_escape(body[1]) is Some {
            Some((simple_escape(body[1])->0, 2))
        } else if body.len() >= 6 && body[1] == 0x75 && body[2] == 0x30 && body[3] == 0x30
            && hex_digit(body[4]) is Some && hex_digit(body[4])->0 < 8 && hex_digit(body[5]) is Some {
            Some(((hex_digit(body[4])->0 * 16 + hex_digit(body[5])->0) as u8, 6))
        } else {
            None
        }
    } else if body[0] < 0x20 || body[0] == QUOTE {
        None
    } else {
        Some((body[0], 1))
    }
}

/// The bytes that the inside of a literal stands for, if it is made of items
/// from its first byte to its last.
pub open spec fn unescape(body: Seq<u8>) -> Option<Seq<u8>>
    decreases body.len(),
{
    if body.len() == 0 {
        Some(Seq::empty())
    } else {
        match first_item(body) {
            Some((b, w)) => match unescape(body.skip(w)) {
                Some(rest) => Some(seq![b] + rest),
                None => None,
            },
            None => None,
        }
    }
}

/// The bytes that a literal stands for: it is a quote, items, and a quote.
pub open spec fn literal_value(lit: Seq<u8>) -> Option<Seq<u8>> {
    if lit.len() >= 2 && lit[0] == QUOTE && lit[lit.len() - 1] == QUOTE {
        unescape(lit.subrange(1, lit.len() - 1))
    } else {
        None
    }
}

/// The bytes of an optional buffer.
pub open spec fn bytes_view(bytes: Option<Vec<u8>>) -> Option<Seq<u8>> {
    match bytes {
        Some(b) => Some(b@),
        None => None,
    }
}

fn read_simple_escape(b: u8) -> (r: Option<u8>)
    ensures
        r == simple_escape(b),
{
    if b == 0x22 {
        Some(0x22u8)
    } else if b == 0x5c {
        Some(0x5cu8)
    } else if b == 0x2f {
        Some(0x2fu8)
    } else if b == 0x62 {
        Some(0x08u8)
    } else if b == 0x66 {
        Some(0x0cu8)
    } else if b == 0x6e {
        Some(0x0au8)
    } else if b == 0x72 {
        Some(0x0du8)
    } else if b == 0x74 {
        Some(0x09u8)
    } else {
        None
    }
}

fn read_hex_digit(b: u8) -> (r: Option<u8>)
    ensures
        r == hex_digit(b),
        r matches Some(v) ==> v < 16,
{
    if 0x30 <= b && b <= 0x39 {
        Some(b - 0x30)
    } else if 0x61 <= b && b <= 0x66 {
        Some(b - 0x61 + 10)
    } else if 0x41 <= b && b <= 0x46 {
        Some(b - 0x41 + 10)
    } else {
        None
    }
}

/// Reads the item that begins at `i` and ends before `end`.
fn read_item(lit: &[u8], i: usize, end: usize) -> (r: Option<(u8, usize)>)
    requires
        i < end <= lit@.len(),
    ensures
        match r {
            Some((b, w)) => first_item(lit@.subrange(i as int, end as int)) == Some((b, w as int))
                && 1 <= w <= 6 && i + w <= end,
            None => first_item(lit@.subrange(i as int, end as int)) is None,
        },
{
    let ghost body = lit@.subrange(i as int, end as int);
    let first: u8 = lit[i];
    assert(body[0] == first);
    if first == BACKSLASH {
        if end - i < 2 {
            return None;
        }
        let second: u8 = lit[i + 1];
        assert(body[1] == second);
        match read_simple_escape(second) {
            Some(b) => Some((b, 2)),
            None => {
                if end - i < 6 {
                    return None;
                }
                assert(body[2] == lit@[i + 2] && body[3] == lit@[i + 3] && body[4] == lit@[i + 4]
                    && body[5] == lit@[i + 5]);
                if second != 0x75 || lit[i + 2] != 0x30 || lit[i + 3] != 0x30 {
                    return None;
                }
                match (read_hex_digit(lit[i + 4]), read_hex_digit(lit[i + 5])) {
                    (Some(high), Some(low)) => {
                        if high < 8 {
                            Some((high * 16 + low, 6))
                        } else {
                            None
                        }
                    },
                    _ => None,
                }
            },
        }
    } else if first < 0x20 || first == QUOTE {
        None
    } else {
        Some((first, 1))
    }
}

/// Reads a literal back: the bytes that it stands for, or `None` if it is no
/// literal.
pub fn decode_literal(lit: &[u8]) -> (value: Option<Vec<u8>>)
    ensures
        bytes_view(value) == literal_value(lit@),
{
    let n = lit.len();
    if n < 2 || lit[0] != QUOTE || lit[n - 1] != QUOTE {
        return None;
    }
    let end: usize = n - 1;
    let ghost body = lit@.subrange(1, end as int);
    let mut out: Vec<u8> = Vec::new();
    let mut i: usize = 1;
    assert(body.skip(0) =~= body);
    while i < end
        invariant
            1 <= i <= end,
            end == n - 1,
            n == lit@.len(),
            body == lit@.subrange(1, end as int),
            unescape(body) == (match unescape(body.skip(i - 1)) {
                Some(rest) => Some(out@ + rest),
                None => None,
            }),
        decreases end - i,
    {
        let ghost tail = body.skip(i - 1);
        assert(tail =~= lit@.subrange(i as int, end as int));
        match read_item(lit, i, end) {
            Some((b, w)) => {
                assert(tail.skip(w as int) =~= body.skip(i + w - 1));
                proof {
                    match unescape(body.skip(i + w - 1)) {
                        Some(rest) => {
                            assert(out@ + (seq![b] + rest) =~= out@.push(b) + rest);
                        },
                        None => {},
                    }
                }
                out.push(b);
                i += w;
            },
            None => {
                return None;
            },
        }
    }
    assert(body.skip(i - 1) =~= Seq::<u8>::empty());
    assert(out@ + Seq::<u8>::empty() =~= out@);
    Some(out)
}

/// Whether `lit` is a literal that stands for exactly the bytes `value`.
pub fn literal_encodes(lit: &[u8], value: &[u8]) -> (b: bool)
    ensures
        b == (literal_value(lit@) == Some(value@)),
{
    match decode_literal(lit) {
        Some(decoded) => bytes_eq(decoded.as_slice(), value),
        None => false,
    }
}

/// The number of bytes that the first item of the inside of a literal takes.
pub open spec fn item_width(body: Seq<u8>) -> int {
    match first_item(body) {
        Some((b, w)) => w,
        None => 0,
    }
}

/// An item is told from its own bytes: it does not reach past them, and it
/// stays the same item when more bytes follow.
pub proof fn lemma_item_is_local(body: Seq<u8>, more: Seq<u8>)
    requires
        first_item(body) is Some,
    ensures
        first_item(body + more) == first_item(body),
        1 <= item_width(body) <= body.len(),
        (body + more).skip(item_width(body)) == body.skip(item_width(body)) + more,
{
    let w = item_width(body);
    let longer = body + more;
    assert(forall|i: int| 0 <= i < body.len() ==> longer[i] == body[i]);
    assert(longer.skip(w) =~= body.skip(w) + more);
}

/// The inside of a literal holds no control byte.
pub proof fn lemma_body_has_no_control_byte(body: Seq<u8>)
    requires
        unescape(body) is Some,
    ensures
        forall|i: int| 0 <= i < body.len() ==> #[trigger] body[i] >= 0x20,
    decreases body.len(),
{
    if body.len() > 0 {
        let w = item_width(body);
        lemma_item_is_local(body, Seq::empty());
        lemma_body_has_no_control_byte(body.skip(w));
        assert forall|i: int| 0 <= i < body.len() implies #[trigger] body[i] >= 0x20 by {
            if i >= w {
                assert(body[i] == body.skip(w)[i - w]);
            }
        }
    }
}

/// A literal holds no control byte: in particular no line feed, so that a
/// literal never breaks a line.
pub proof fn lemma_literal_has_no_control_byte(lit: Seq<u8>)
    requires
        literal_value(lit) is Some,
    ensures
        forall|i: int| 0 <= i < lit.len() ==> #[trigger] lit[i] >= 0x20,
{
    let body = lit.subrange(1, lit.len() - 1);
    lemma_body_has_no_control_byte(body);
    assert forall|i: int| 0 <= i < lit.len() implies #[trigger] lit[i] >= 0x20 by {
        if 0 < i < lit.len() - 1 {
            assert(lit[i] == body[i - 1]);
        }
    }
}

/// The number of bytes that the items take which stand before the first
/// quote that is not part of an item: where a reader that has passed the
/// opening quote finds the closing one.
pub open spec fn body_len(bytes: Seq<u8>) -> Option<int>
    decreases bytes.len(),
{
    if bytes.len() == 0 {
        None
    } else if bytes[0] == QUOTE {
        Some(0)
    } else {
        match first_item(bytes) {
            Some((b, w)) => match body_len(bytes.skip(w)) {
                Some(n) => Some(w + n),
                None => None,
            },
            None => None,
        }
    }
}

/// The length of the literal that `bytes` begins with, if it begins with one.
pub open spec fn literal_len(bytes: Seq<u8>) -> Option<int> {
    if bytes.len() >= 1 && bytes[0] == QUOTE {
        match body_len(bytes.skip(1)) {
            Some(n) => Some(n + 2),
            None => None,
        }
    } else {
        None
    }
}

/// What a reader finds at the head of `bytes`: the value of the literal that
/// `bytes` begins with, and the bytes after it.
pub open spec fn read_literal(bytes: Seq<u8>) -> Option<(Seq<u8>, Seq<u8>)> {
    match literal_len(bytes) {
        Some(n) => match literal_value(bytes.take(n)) {
            Some(value) => Some((value, bytes.skip(n))),
            None => None,
        },
        None => None,
    }
}

/// A reader finds the end of the inside of a literal where it is, whatever
/// follows the closing quote.
pub proof fn lemma_body_ends_at_its_quote(body: Seq<u8>, more: Seq<u8>)
    requires
        unescape(body) is Some,
    ensures
        body_len(body + seq![QUOTE] + more) == Some(body.len() as int),
    decreases body.len(),
{
    let rest = seq![QUOTE] + more;
    assert(body + seq![QUOTE] + more =~= body + rest);
    if body.len() == 0 {
        assert((body + rest)[0] == QUOTE);
    } else {
        let w = item_width(body);
        lemma_item_is_local(body, rest);
        assert((body + rest)[0] == body[0]);
        lemma_body_ends_at_its_quote(body.skip(w), more);
        assert(body.skip(w) + seq![QUOTE] + more =~= body.skip(w) + rest);
    }
}

/// A literal cannot be cut short or drawn out by what it holds or by what
/// follows it: a reader of a literal and more bytes finds the literal's
/// value, and is left with exactly the bytes that follow.
pub proof fn lemma_literal_reads_back(lit: Seq<u8>, more: Seq<u8>)
    requires
        literal_value(lit) is Some,
    ensures
        literal_len(lit + more) == Some(lit.len() as int),
        read_literal(lit + more) == Some((literal_value(lit).unwrap(), more)),
{
    let body = lit.subrange(1, lit.len() - 1);
    lemma_body_ends_at_its_quote(body, more);
    assert((lit + more).skip(1) =~= body + seq![QUOTE] + more);
    assert((lit + more).take(lit.len() as int) =~= lit);
    assert((lit + more).skip(lit.len() as int) =~= more);
}

/// What `serde_json::to_vec` returns for a text: the bytes that it writes, or
/// `None` where it reports an error.
pub uninterp spec fn json_text(text: Seq<char>) -> Option<Seq<u8>>;

/// The error type of `serde_json`, which the library only hands on.
#[verifier::external_type_specification]
#[verifier::external_body]
pub struct ExJsonError(serde_json::Error);

/// Calls `serde_json::to_vec` on a string. The contract gives the outcome its
/// name, [`json_text`], and claims nothing else of it: neither that the call
/// succeeds nor what the bytes are.
#[verifier::external_body]
fn to_json(text: &str) -> (written: Result<Vec<u8>, serde_json::Error>)
    ensures
        match written {
            Ok(bytes) => json_text(text@) == Some(bytes@),
            Err(_) => json_text(text@) is None,
        },
{
    serde_json::to_vec(text)
}

/// Why a text could not be written as a literal.
#[derive(Clone, Copy, Debug, PartialEq, Eq, Structural)]
pub enum QuoteError {
    /// The serializer reported an error.
    Rejected,
    /// The serializer wrote something that does not read back as the text.
    Unfaithful,
}

/// The outcome of writing a text as a literal and reading it back: the
/// literal, if the serializer wrote one that stands for the bytes of the
/// text.
pub open spec fn quoted(text: Seq<char>) -> Result<Seq<u8>, QuoteError> {
    match json_text(text) {
        Some(lit) => if literal_value(lit) == Some(encode_utf8(text)) {
            Ok(lit)
        } else {
            Err(QuoteError::Unfaithful)
        },
        None => Err(QuoteError::Rejected),
    }
}

/// The bytes of the outcome of [`quote`].
pub open spec fn quote_view(r: Result<Vec<u8>, QuoteError>) -> Result<Seq<u8>, QuoteError> {
    match r {
        Ok(lit) => Ok(lit@),
        Err(e) => Err(e),
    }
}

/// Decides what becomes of the serializer's answer for `text`: a literal that
/// reads back as the text is kept, anything else is an error.
pub fn check_quoted(text: &str, written: Result<Vec<u8>, serde_json::Error>) -> (r: Result<
    Vec<u8>,
    QuoteError,
>)
    ensures
        match written {
            Ok(lit) => if literal_value(lit@) == Some(encode_utf8(text@)) {
                r == Ok::<Vec<u8>, QuoteError>(lit)
            } else {
                r == Err::<Vec<u8>, QuoteError>(QuoteError::Unfaithful)
            },
            Err(_) => r == Err::<Vec<u8>, QuoteError>(QuoteError::Rejected),
        },
{
    match written {
        Ok(lit) => {
            if literal_encodes(lit.as_slice(), text.as_bytes()) {
                Ok(lit)
            } else {
                Err(QuoteError::Unfaithful)
            }
        },
        Err(_) => Err(QuoteError::Rejected),
    }
}

/// Writes `text` as a JSON string literal.
pub fn quote(text: &str) -> (r: Result<Vec<u8>, QuoteError>)
    ensures
        quote_view(r) == quoted(text@),
{
    check_quoted(text, to_json(text))
}

} // verus!
