//! Reading and writing requests and responses.
//!
//! A request is read from a buffer only when all of the buffer is one
//! request: there is no length in front of a message and no mark behind it,
//! so a buffer that holds less, or more, holds "no message yet". A response
//! is the bytes of its text and nothing else.

use crate::broker_proto::{ClientRequest, Operation};
use crate::wire::{
    envelope, escape, escape_byte, escape_sequence, hex_char, hex_digit, hex_quad, name_bytes,
    operation_named, quoted, skip_spaces, spec_decode, spec_encode, string_body, string_token,
    three_strings, token, unicode_escape, Envelope, BACKSLASH, BRACE_CLOSE, BRACE_OPEN,
    BRACKET_CLOSE, BRACKET_OPEN, COLON, COMMA, QUOTE,
};
use vstd::prelude::*;
use vstd::utf8::{decode_utf8, encode_scalar, encode_utf8, is_scalar, valid_utf8};

verus! {

/// Whether two runs of bytes are the same.
pub fn bytes_equal(a: &[u8], b: &[u8]) -> (same: bool)
    ensures
        same == (a@ == b@),
{
    if a.len() != b.len() {
        return false;
    }
    let mut i: usize = 0;
    while i < a.len()
        invariant
            a.len() == b.len(),
            i <= a.len(),
            forall|k: int| 0 <= k < i ==> a@[k] == b@[k],
        decreases a.len() - i,
    {
        if a[i] != b[i] {
            return false;
        }
        i += 1;
    }
    assert(a@ =~= b@);
    true
}

/// The place of the first byte at or after `i` that is no white space.
fn skip(s: &[u8], i: usize) -> (j: usize)
    requires
        i <= s.len(),
    ensures
        j == skip_spaces(s@, i as int),
        i <= j <= s.len(),
{
    let mut j: usize = i;
    while j < s.len() && (s[j] == 0x20 || s[j] == 0x09 || s[j] == 0x0a || s[j] == 0x0d)
        invariant
            i <= j <= s.len(),
            skip_spaces(s@, i as int) == skip_spaces(s@, j as int),
        decreases s.len() - j,
    {
        j += 1;
    }
    j
}

/// Reads the token `c` at or after `i`, white space skipped.
fn read_token(s: &[u8], i: usize, c: u8) -> (next: Option<usize>)
    requires
        i <= s.len(),
    ensures
        next == match token(s@, i as int, c) {
            Some(j) => Some(j as usize),
            None => None,
        },
        next matches Some(j) ==> i < j <= s.len() && token(s@, i as int, c) == Some(j as int),
{
    let j: usize = skip(s, i);
    if j < s.len() && s[j] == c {
        Some(j + 1)
    } else {
        None
    }
}

/// The value of a hexadecimal digit.
fn read_hex_digit(b: u8) -> (value: Option<u32>)
    ensures
        match hex_digit(b) {
            Some(v) => value == Some(v as u32) && 0 <= v < 16,
            None => value is None,
        },
{
    if 0x30 <= b && b <= 0x39 {
        Some((b - 0x30) as u32)
    } else if 0x61 <= b && b <= 0x66 {
        Some((b - 0x61 + 10) as u32)
    } else if 0x41 <= b && b <= 0x46 {
        Some((b - 0x41 + 10) as u32)
    } else {
        None
    }
}

/// The number that the four hexadecimal digits at `i` write.
fn read_hex_quad(s: &[u8], i: usize) -> (value: Option<u32>)
    requires
        i <= s.len(),
    ensures
        match hex_quad(s@, i as int) {
            Some(v) => value == Some(v as u32) && 0 <= v <= 0xFFFF,
            None => value is None,
        },
{
    if s.len() - i < 4 {
        return None;
    }
    let a = read_hex_digit(s[i]);
    let b = read_hex_digit(s[i + 1]);
    let c = read_hex_digit(s[i + 2]);
    let d = read_hex_digit(s[i + 3]);
    match (a, b, c, d) {
        (Some(a), Some(b), Some(c), Some(d)) => Some(a * 4096 + b * 256 + c * 16 + d),
        _ => None,
    }
}

/// Appends the UTF-8 bytes of the character `scalar`.
fn push_scalar(out: &mut Vec<u8>, scalar: u32)
    requires
        is_scalar(scalar),
    ensures
        final(out)@ == old(out)@ + encode_scalar(scalar),
{
    if scalar <= 0x7F {
        assert(scalar & 0x7F < 256) by (bit_vector);
        let b0: u8 = (scalar & 0x7F) as u8;
        out.push(b0);
        assert(out@ =~= old(out)@ + encode_scalar(scalar));
    } else if scalar <= 0x7FF {
        assert((scalar >> 6) & 0x1F < 256 && scalar & 0x3F < 256) by (bit_vector);
        let b0: u8 = 0xC0 | ((scalar >> 6) & 0x1F) as u8;
        let b1: u8 = 0x80 | (scalar & 0x3F) as u8;
        out.push(b0);
        out.push(b1);
        assert(out@ =~= old(out)@ + encode_scalar(scalar));
    } else if scalar <= 0xFFFF {
        assert((scalar >> 12) & 0x0F < 256 && (scalar >> 6) & 0x3F < 256 && scalar & 0x3F < 256)
            by (bit_vector);
        let b0: u8 = 0xE0 | ((scalar >> 12) & 0x0F) as u8;
        let b1: u8 = 0x80 | ((scalar >> 6) & 0x3F) as u8;
        let b2: u8 = 0x80 | (scalar & 0x3F) as u8;
        out.push(b0);
        out.push(b1);
        out.push(b2);
        assert(out@ =~= old(out)@ + encode_scalar(scalar));
    } else {
        assert((scalar >> 18) & 0x7 < 256 && (scalar >> 12) & 0x3F < 256 && (scalar >> 6) & 0x3F
            < 256 && scalar & 0x3F < 256) by (bit_vector);
        let b0: u8 = 0xF0 | ((scalar >> 18) & 0x7) as u8;
        let b1: u8 = 0x80 | ((scalar >> 12) & 0x3F) as u8;
        let b2: u8 = 0x80 | ((scalar >> 6) & 0x3F) as u8;
        let b3: u8 = 0x80 | (scalar & 0x3F) as u8;
        out.push(b0);
        out.push(b1);
        out.push(b2);
        out.push(b3);
        assert(out@ =~= old(out)@ + encode_scalar(scalar));
    }
}

/// Reads what follows `\u` at `i` and appends the character's bytes.
fn read_unicode_escape(s: &[u8], i: usize, out: &mut Vec<u8>) -> (next: Option<usize>)
    requires
        i <= s.len(),
    ensures
        match unicode_escape(s@, i as int) {
            Some((bytes, j)) => next == Some(j as usize) && i < j <= s.len() && final(out)@ == old(
                out,
            )@ + bytes,
            None => next is None,
        },
{
    let n: u32 = match read_hex_quad(s, i) {
        Some(n) => n,
        None => {
            return None;
        },
    };
    if 0xDC00 <= n && n <= 0xDFFF {
        None
    } else if n < 0xD800 || n > 0xDBFF {
        push_scalar(out, n);
        Some(i + 4)
    } else if s.len() - i >= 6 && s[i + 4] == BACKSLASH && s[i + 5] == 0x75 {
        match read_hex_quad(s, i + 6) {
            Some(m) => {
                if 0xDC00 <= m && m <= 0xDFFF {
                    let scalar: u32 = (n - 0xD800) * 1024 + (m - 0xDC00) + 0x10000;
                    push_scalar(out, scalar);
                    Some(i + 10)
                } else {
                    None
                }
            },
            None => None,
        }
    } else {
        None
    }
}

/// Reads what follows a backslash at `i` and appends the bytes that the
/// escape stands for.
fn read_escape(s: &[u8], i: usize, out: &mut Vec<u8>) -> (next: Option<usize>)
    requires
        i <= s.len(),
    ensures
        match escape_sequence(s@, i as int) {
            Some((bytes, j)) => next == Some(j as usize) && i < j <= s.len() && final(out)@ == old(
                out,
            )@ + bytes,
            None => next is None,
        },
{
    if i >= s.len() {
        return None;
    }
    let c: u8 = s[i];
    if c == QUOTE || c == BACKSLASH || c == 0x2f {
        out.push(c);
        assert(out@ =~= old(out)@ + seq![c]);
        Some(i + 1)
    } else if c == 0x62 {
        out.push(0x08);
        assert(out@ =~= old(out)@ + seq![0x08u8]);
        Some(i + 1)
    } else if c == 0x66 {
        out.push(0x0c);
        assert(out@ =~= old(out)@ + seq![0x0cu8]);
        Some(i + 1)
    } else if c == 0x6e {
        out.push(0x0a);
        assert(out@ =~= old(out)@ + seq![0x0au8]);
        Some(i + 1)
    } else if c == 0x72 {
        out.push(0x0d);
        assert(out@ =~= old(out)@ + seq![0x0du8]);
        Some(i + 1)
    } else if c == 0x74 {
        out.push(0x09);
        assert(out@ =~= old(out)@ + seq![0x09u8]);
        Some(i + 1)
    } else if c == 0x75 {
        read_unicode_escape(s, i + 1, out)
    } else {
        None
    }
}

/// What reading a string from `i` comes to when the bytes `done` were read
/// before.
spec fn string_body_after(done: Seq<u8>, s: Seq<u8>, i: int) -> Option<(Seq<u8>, int)> {
    match string_body(s, i) {
        Some((rest, k)) => Some((done + rest, k)),
        None => None,
    }
}

/// Reads the inside of a string from `i` to its closing quote.
fn read_string_body(s: &[u8], i: usize) -> (read: Option<(Vec<u8>, usize)>)
    requires
        i <= s.len(),
    ensures
        match string_body(s@, i as int) {
            Some((content, j)) => read matches Some(r) && r.0@ == content && r.1 == j && i < j
                <= s.len(),
            None => read is None,
        },
{
    let mut out: Vec<u8> = Vec::new();
    let mut at: usize = i;
    assert(string_body_after(out@, s@, at as int) =~= string_body(s@, i as int)) by {
        match string_body(s@, i as int) {
            Some((rest, k)) => assert(out@ + rest =~= rest),
            None => {},
        }
    };
    proof {
        lemma_string_body_ends_within(s@, i as int);
    }
    loop
        invariant
            i <= at <= s.len(),
            string_body_after(out@, s@, at as int) == string_body(s@, i as int),
            string_body(s@, at as int) matches Some(r) ==> at < r.1 <= s.len(),
        decreases s.len() - at,
    {
        if at >= s.len() {
            return None;
        }
        let c: u8 = s[at];
        if c == QUOTE {
            proof {
                assert(out@ + Seq::<u8>::empty() =~= out@);
            }
            return Some((out, at + 1));
        } else if c == BACKSLASH {
            let ghost before = out@;
            match read_escape(s, at + 1, &mut out) {
                Some(next) => {
                    proof {
                        let bytes = escape_sequence(s@, at + 1).unwrap().0;
                        match string_body(s@, next as int) {
                            Some((rest, k)) => {
                                assert(before + (bytes + rest) =~= (before + bytes) + rest);
                                lemma_string_body_ends_within(s@, next as int);
                            },
                            None => {},
                        }
                    }
                    at = next;
                },
                None => {
                    return None;
                },
            }
        } else if c < 0x20 {
            return None;
        } else {
            let ghost before = out@;
            out.push(c);
            proof {
                match string_body(s@, at + 1) {
                    Some((rest, k)) => {
                        assert(before + (seq![c] + rest) =~= before.push(c) + rest);
                        lemma_string_body_ends_within(s@, at + 1);
                    },
                    None => {},
                }
            }
            at += 1;
        }
    }
}

/// A string that is read ends within the bytes it is read from, behind the
/// place where reading began.
pub proof fn lemma_string_body_ends_within(s: Seq<u8>, i: int)
    ensures
        string_body(s, i) matches Some(r) ==> i < r.1 <= s.len(),
    decreases s.len() - i,
{
    if 0 <= i < s.len() {
        if s[i] == QUOTE {
        } else if s[i] == BACKSLASH {
            match escape_sequence(s, i + 1) {
                Some((bytes, j)) => {
                    if j > i {
                        lemma_string_body_ends_within(s, j);
                    }
                },
                None => {},
            }
        } else if s[i] >= 0x20 {
            lemma_string_body_ends_within(s, i + 1);
        }
    }
}

/// Reads a string at or after `i`, white space skipped.
fn read_string(s: &[u8], i: usize) -> (read: Option<(Vec<u8>, usize)>)
    requires
        i <= s.len(),
    ensures
        match string_token(s@, i as int) {
            Some((content, j)) => read matches Some(r) && r.0@ == content && r.1 == j && i < j
                <= s.len(),
            None => read is None,
        },
{
    match read_token(s, i, QUOTE) {
        Some(j) => read_string_body(s, j),
        None => None,
    }
}

/// Reads an array of exactly three strings at or after `i`.
fn read_three_strings(s: &[u8], i: usize) -> (read: Option<(Vec<u8>, Vec<u8>, Vec<u8>, usize)>)
    requires
        i <= s.len(),
    ensures
        match three_strings(s@, i as int) {
            Some((fields, j)) => read matches Some(r) && r.0@ == fields.0 && r.1@ == fields.1
                && r.2@ == fields.2 && r.3 == j && i < j <= s.len(),
            None => read is None,
        },
{
    let i1: usize = match read_token(s, i, BRACKET_OPEN) {
        Some(next) => next,
        None => {
            return None;
        },
    };
    let (first, i2) = match read_string(s, i1) {
        Some(read) => read,
        None => {
            return None;
        },
    };
    let i3: usize = match read_token(s, i2, COMMA) {
        Some(next) => next,
        None => {
            return None;
        },
    };
    let (second, i4) = match read_string(s, i3) {
        Some(read) => read,
        None => {
            return None;
        },
    };
    let i5: usize = match read_token(s, i4, COMMA) {
        Some(next) => next,
        None => {
            return None;
        },
    };
    let (third, i6) = match read_string(s, i5) {
        Some(read) => read,
        None => {
            return None;
        },
    };
    match read_token(s, i6, BRACKET_CLOSE) {
        Some(i7) => Some((first, second, third, i7)),
        None => None,
    }
}

/// The four strings of an envelope as they were read.
struct RawEnvelope {
    name: Vec<u8>,
    protocol_version: Vec<u8>,
    correlation_id: Vec<u8>,
    request_json: Vec<u8>,
}

impl View for RawEnvelope {
    type V = Envelope;

    closed spec fn view(&self) -> Envelope {
        Envelope {
            name: self.name@,
            protocol_version: self.protocol_version@,
            correlation_id: self.correlation_id@,
            request_json: self.request_json@,
        }
    }
}

/// Reads all of `s` as one envelope.
fn read_envelope(s: &[u8]) -> (read: Option<RawEnvelope>)
    ensures
        match envelope(s@) {
            Some(e) => read matches Some(r) && r@ == e,
            None => read is None,
        },
{
    let i1: usize = match read_token(s, 0, BRACE_OPEN) {
        Some(next) => next,
        None => {
            return None;
        },
    };
    let (name, i2) = match read_string(s, i1) {
        Some(read) => read,
        None => {
            return None;
        },
    };
    let i3: usize = match read_token(s, i2, COLON) {
        Some(next) => next,
        None => {
            return None;
        },
    };
    let (protocol_version, correlation_id, request_json, i4) = match read_three_strings(s, i3) {
        Some(read) => read,
        None => {
            return None;
        },
    };
    let i5: usize = match read_token(s, i4, BRACE_CLOSE) {
        Some(next) => next,
        None => {
            return None;
        },
    };
    if skip(s, i5) == s.len() {
        Some(RawEnvelope { name, protocol_version, correlation_id, request_json })
    } else {
        None
    }
}

/// The operation that goes by the name `name`.
pub fn find_operation(name: &[u8]) -> (found: Option<Operation>)
    ensures
        found == operation_named(name@),
{
    let operations = Operation::all();
    let mut i: usize = 0;
    while i < operations.len()
        invariant
            i <= operations.len(),
            operations@ == Operation::spec_all(),
            forall|k: int| 0 <= k < i ==> name@ != name_bytes(#[trigger] operations@[k]),
        decreases operations.len() - i,
    {
        let operation = operations[i];
        if bytes_equal(name, operation.wire_name().as_bytes()) {
            return Some(operation);
        }
        i += 1;
    }
    proof {
        let all = Operation::spec_all();
        assert(name@ != name_bytes(all[0]));
        assert(name@ != name_bytes(all[1]));
        assert(name@ != name_bytes(all[2]));
        assert(name@ != name_bytes(all[3]));
        assert(name@ != name_bytes(all[4]));
        assert(name@ != name_bytes(all[5]));
        assert(name@ != name_bytes(all[6]));
        assert(name@ != name_bytes(all[7]));
    }
    None
}

/// The cause that `String::from_utf8` gives when it refuses bytes.
#[verifier::external_type_specification]
#[verifier::external_body]
pub struct ExFromUtf8Error(std::string::FromUtf8Error);

/// `String::from_utf8`: the text that `bytes` are in UTF-8, or an error
/// where they are not UTF-8.
#[verifier::external_body]
fn string_from_utf8(bytes: Vec<u8>) -> (text: Result<String, std::string::FromUtf8Error>)
    ensures
        text is Ok <==> valid_utf8(bytes@),
        text matches Ok(t) ==> t@ == decode_utf8(bytes@),
{
    String::from_utf8(bytes)
}

/// The text that `bytes` are in UTF-8, or `None` where they are not UTF-8.
pub fn text_of(bytes: Vec<u8>) -> (text: Option<String>)
    ensures
        text is Some <==> valid_utf8(bytes@),
        text matches Some(t) ==> t@ == decode_utf8(bytes@),
{
    match string_from_utf8(bytes) {
        Ok(text) => Some(text),
        Err(_) => None,
    }
}

/// Reads all of `bytes` as one request. There is a request exactly where
/// the bytes are one envelope that names an operation and whose three
/// strings are UTF-8.
pub fn decode_request(bytes: &[u8]) -> (request: Option<ClientRequest>)
    ensures
        match spec_decode(bytes@) {
            Some(model) => request matches Some(r) && r@ == model,
            None => request is None,
        },
{
    let raw = match read_envelope(bytes) {
        Some(raw) => raw,
        None => {
            return None;
        },
    };
    let RawEnvelope { name, protocol_version, correlation_id, request_json } = raw;
    let operation = match find_operation(name.as_slice()) {
        Some(operation) => operation,
        None => {
            return None;
        },
    };
    let protocol_version = match text_of(protocol_version) {
        Some(text) => text,
        None => {
            return None;
        },
    };
    let correlation_id = match text_of(correlation_id) {
        Some(text) => text,
        None => {
            return None;
        },
    };
    let request_json = match text_of(request_json) {
        Some(text) => text,
        None => {
            return None;
        },
    };
    Some(ClientRequest::new(operation, protocol_version, correlation_id, request_json))
}

/// Escaping a string byte by byte writes its escaped form.
pub proof fn lemma_escape_push(content: Seq<u8>, b: u8)
    ensures
        escape(content.push(b)) == escape(content) + escape_byte(b),
    decreases content.len(),
{
    if content.len() == 0 {
        assert(content.push(b).drop_first() =~= Seq::<u8>::empty());
        assert(escape(content.push(b)) =~= escape_byte(b) + escape(Seq::<u8>::empty()));
        assert(escape(content.push(b)) =~= escape(content) + escape_byte(b));
    } else {
        let rest = content.drop_first();
        assert(content.push(b).drop_first() =~= rest.push(b));
        lemma_escape_push(rest, b);
        assert(escape_byte(content[0]) + (escape(rest) + escape_byte(b)) =~= (escape_byte(
            content[0],
        ) + escape(rest)) + escape_byte(b));
    }
}

/// The lower-case hexadecimal digit for `d`.
fn hex_char_of(d: u8) -> (c: u8)
    requires
        d < 16,
    ensures
        c == hex_char(d as int),
{
    if d < 10 {
        0x30 + d
    } else {
        0x61 + d - 10
    }
}

/// Appends one byte of a string as it is written between the quotes.
fn push_escaped(out: &mut Vec<u8>, b: u8)
    ensures
        final(out)@ == old(out)@ + escape_byte(b),
{
    if b == QUOTE {
        out.push(BACKSLASH);
        out.push(QUOTE);
    } else if b == BACKSLASH {
        out.push(BACKSLASH);
        out.push(BACKSLASH);
    } else if b == 0x08 {
        out.push(BACKSLASH);
        out.push(0x62);
    } else if b == 0x0c {
        out.push(BACKSLASH);
        out.push(0x66);
    } else if b == 0x0a {
        out.push(BACKSLASH);
        out.push(0x6e);
    } else if b == 0x0d {
        out.push(BACKSLASH);
        out.push(0x72);
    } else if b == 0x09 {
        out.push(BACKSLASH);
        out.push(0x74);
    } else if b < 0x20 {
        out.push(BACKSLASH);
        out.push(0x75);
        out.push(0x30);
        out.push(0x30);
        out.push(hex_char_of(b / 16));
        out.push(hex_char_of(b % 16));
    } else {
        out.push(b);
    }
    assert(out@ =~= old(out)@ + escape_byte(b));
}

/// Appends a string as it is written: escaped, between two quotes.
fn push_quoted(out: &mut Vec<u8>, content: &[u8])
    ensures
        final(out)@ == old(out)@ + quoted(content@),
{
    out.push(QUOTE);
    let mut i: usize = 0;
    assert(content@.take(0) =~= Seq::<u8>::empty());
    assert(out@ =~= old(out)@ + seq![QUOTE] + escape(content@.take(0)));
    while i < content.len()
        invariant
            i <= content.len(),
            out@ == old(out)@ + seq![QUOTE] + escape(content@.take(i as int)),
        decreases content.len() - i,
    {
        let ghost before = out@;
        push_escaped(out, content[i]);
        proof {
            lemma_escape_push(content@.take(i as int), content@[i as int]);
            assert(content@.take(i + 1) =~= content@.take(i as int).push(content@[i as int]));
            assert(out@ =~= old(out)@ + seq![QUOTE] + escape(content@.take(i + 1)));
        }
        i += 1;
    }
    out.push(QUOTE);
    assert(content@.take(content.len() as int) =~= content@);
    assert(out@ =~= old(out)@ + quoted(content@));
}

/// Writes a request: one object with one member, no white space.
pub fn encode_request(request: &ClientRequest) -> (bytes: Vec<u8>)
    ensures
        bytes@ == spec_encode(request@),
{
    let operation = request.operation();
    let (protocol_version, correlation_id, request_json) = request.fields();
    let mut out: Vec<u8> = Vec::new();
    out.push(BRACE_OPEN);
    push_quoted(&mut out, operation.wire_name().as_bytes());
    out.push(COLON);
    out.push(BRACKET_OPEN);
    push_quoted(&mut out, protocol_version.as_bytes());
    out.push(COMMA);
    push_quoted(&mut out, correlation_id.as_bytes());
    out.push(COMMA);
    push_quoted(&mut out, request_json.as_bytes());
    out.push(BRACKET_CLOSE);
    out.push(BRACE_CLOSE);
    assert(out@ =~= spec_encode(request@));
    out
}

/// A growable buffer of bytes.
#[verifier::external_type_specification]
#[verifier::external_body]
pub struct ExBytesMut(bytes::BytesMut);

/// The bytes that a buffer holds, first to last.
pub uninterp spec fn buffered(buffer: bytes::BytesMut) -> Seq<u8>;

/// `<BytesMut as AsRef<[u8]>>::as_ref`: the bytes that the buffer holds.
#[verifier::external_body]
fn buffer_bytes(buffer: &bytes::BytesMut) -> (bytes: &[u8])
    ensures
        bytes@ == buffered(*buffer),
{
    buffer.as_ref()
}

/// `BytesMut::clear`: the buffer then holds nothing.
#[verifier::external_body]
fn buffer_clear(buffer: &mut bytes::BytesMut)
    ensures
        buffered(*final(buffer)) == Seq::<u8>::empty(),
{
    buffer.clear()
}

/// `BytesMut::extend_from_slice`: the buffer then holds what it held,
/// followed by `bytes`. The call panics where the new length overflows
/// `usize`, which is left out.
#[verifier::external_body]
fn buffer_append(buffer: &mut bytes::BytesMut, bytes: &[u8])
    requires
        buffered(*old(buffer)).len() + bytes@.len() <= usize::MAX,
    ensures
        buffered(*final(buffer)) == buffered(*old(buffer)) + bytes@,
{
    buffer.extend_from_slice(bytes)
}

/// A response that cannot be written because the buffer would grow beyond
/// what a buffer can hold.
#[derive(Clone, Copy, PartialEq, Eq, Structural, Debug)]
pub struct ResponseTooLong;

/// The codec of the broker socket, on the broker's side: it reads requests
/// and writes responses.
#[derive(Clone, Copy, Debug, Default)]
pub struct ClientCodec;

impl ClientCodec {
    /// Takes the next request out of `src`.
    ///
    /// Where all of `src` is one request, the request is handed out and
    /// `src` is emptied. Where it is not, there is no message yet: nothing
    /// is handed out and `src` is left as it is, to be tried again when more
    /// bytes have arrived.
    pub fn decode(&mut self, src: &mut bytes::BytesMut) -> (request: Option<ClientRequest>)
        ensures
            match spec_decode(buffered(*old(src))) {
                Some(model) => request matches Some(r) && r@ == model && buffered(*final(src))
                    == Seq::<u8>::empty(),
                None => request is None && buffered(*final(src)) == buffered(*old(src)),
            },
    {
        let request = decode_request(buffer_bytes(src));
        if request.is_some() {
            buffer_clear(src);
        }
        request
    }

    /// Writes the response `msg` behind what `dst` holds: the bytes of its
    /// text, with nothing before and nothing after. It is refused, and
    /// `dst` left as it is, only where `dst` would become longer than a
    /// buffer can be.
    pub fn encode(&mut self, msg: String, dst: &mut bytes::BytesMut) -> (written: Result<
        (),
        ResponseTooLong,
    >)
        ensures
            written is Ok <==> buffered(*old(dst)).len() + encode_utf8(msg@).len() <= usize::MAX,
            written is Ok ==> buffered(*final(dst)) == buffered(*old(dst)) + encode_utf8(msg@),
            written is Err ==> buffered(*final(dst)) == buffered(*old(dst)),
    {
        let text = msg.as_str().as_bytes();
        let held: usize = buffer_bytes(dst).len();
        if text.len() <= usize::MAX - held {
            buffer_append(dst, text);
            Ok(())
        } else {
            Err(ResponseTooLong)
        }
    }
}

} // verus!
