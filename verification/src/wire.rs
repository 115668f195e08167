//! The grammar of a request on the wire.
//!
//! A request travels as one JSON object with one member. The member's name
//! is the name of the operation, its value an array of exactly three
//! strings: protocol version, correlation id and request document.
//!
//! ```text
//! {"acquireTokenSilently":["0.1","corr-123","{\"scope\":\"x\"}"]}
//! ```
//!
//! Blanks, tabs, line feeds and carriage returns may stand between the
//! tokens, before the object and after it. Nothing else may.
//!
//! This module states the grammar on bytes; `crate::codec` reads and writes
//! by it.

use crate::broker_proto::{Operation, RequestModel};
use vstd::prelude::*;
use vstd::utf8::{decode_utf8, encode_scalar, encode_utf8, valid_utf8};

verus! {

/// The quotation mark that opens and closes a string.
pub const QUOTE: u8 = 0x22;

/// The backslash that begins an escape.
pub const BACKSLASH: u8 = 0x5c;

/// The comma between the strings of the array.
pub const COMMA: u8 = 0x2c;

/// The colon between the name and the array.
pub const COLON: u8 = 0x3a;

/// The bracket that opens the array.
pub const BRACKET_OPEN: u8 = 0x5b;

/// The bracket that closes the array.
pub const BRACKET_CLOSE: u8 = 0x5d;

/// The brace that opens the object.
pub const BRACE_OPEN: u8 = 0x7b;

/// The brace that closes the object.
pub const BRACE_CLOSE: u8 = 0x7d;

/// White space between tokens: blank, tab, line feed, carriage return.
pub open spec fn is_space(b: u8) -> bool {
    b == 0x20 || b == 0x09 || b == 0x0a || b == 0x0d
}

/// The place of the first byte at or after `i` that is no white space, or
/// the end of `s` where there is none.
pub open spec fn skip_spaces(s: Seq<u8>, i: int) -> int
    decreases s.len() - i,
{
    if 0 <= i < s.len() && is_space(s[i]) {
        skip_spaces(s, i + 1)
    } else {
        i
    }
}

/// Reads the token `c` at or after `i`, white space skipped: the place
/// after it, or `None` where something else stands there.
pub open spec fn token(s: Seq<u8>, i: int, c: u8) -> Option<int> {
    let j = skip_spaces(s, i);
    if 0 <= j < s.len() && s[j] == c {
        Some(j + 1)
    } else {
        None
    }
}

/// The value of a hexadecimal digit, of either case.
pub open spec fn hex_digit(b: u8) -> Option<int> {
    if 0x30 <= b <= 0x39 {
        Some(b - 0x30)
    } else if 0x61 <= b <= 0x66 {
        Some(b - 0x61 + 10)
    } else if 0x41 <= b <= 0x46 {
        Some(b - 0x41 + 10)
    } else {
        None
    }
}

/// The number that the four hexadecimal digits at `i` write.
pub open spec fn hex_quad(s: Seq<u8>, i: int) -> Option<int> {
    if 0 <= i && i + 4 <= s.len() {
        match (hex_digit(s[i]), hex_digit(s[i + 1]), hex_digit(s[i + 2]), hex_digit(s[i + 3])) {
            (Some(a), Some(b), Some(c), Some(d)) => Some(a * 4096 + b * 256 + c * 16 + d),
            _ => None,
        }
    } else {
        None
    }
}

/// The character that the pair of surrogates `high`, `low` stands for.
pub open spec fn surrogate_pair(high: int, low: int) -> int {
    (high - 0xD800) * 1024 + (low - 0xDC00) + 0x10000
}

/// Reads what follows `\u` at `i`: four hexadecimal digits that name a
/// character, or a high surrogate followed by `\u` and a low surrogate,
/// which name one together. Gives the character's UTF-8 bytes and the place
/// after the escape. A surrogate that stands alone is refused.
pub open spec fn unicode_escape(s: Seq<u8>, i: int) -> Option<(Seq<u8>, int)> {
    match hex_quad(s, i) {
        Some(n) => {
            if 0xDC00 <= n <= 0xDFFF {
                None
            } else if n < 0xD800 || n > 0xDBFF {
                Some((encode_scalar(n as u32), i + 4))
            } else if i + 6 <= s.len() && s[i + 4] == BACKSLASH && s[i + 5] == 0x75 {
                match hex_quad(s, i + 6) {
                    Some(m) => {
                        if 0xDC00 <= m <= 0xDFFF {
                            Some((encode_scalar(surrogate_pair(n, m) as u32), i + 10))
                        } else {
                            None
                        }
                    },
                    None => None,
                }
            } else {
                None
            }
        },
        None => None,
    }
}

/// Reads what follows a backslash at `i`: the bytes that the escape stands
/// for and the place after it.
pub open spec fn escape_sequence(s: Seq<u8>, i: int) -> Option<(Seq<u8>, int)> {
    if 0 <= i < s.len() {
        let c = s[i];
        if c == QUOTE || c == BACKSLASH || c == 0x2f {
            Some((seq![c], i + 1))
        } else if c == 0x62 {
            Some((seq![0x08u8], i + 1))
        } else if c == 0x66 {
            Some((seq![0x0cu8], i + 1))
        } else if c == 0x6e {
            Some((seq![0x0au8], i + 1))
        } else if c == 0x72 {
            Some((seq![0x0du8], i + 1))
        } else if c == 0x74 {
            Some((seq![0x09u8], i + 1))
        } else if c == 0x75 {
            unicode_escape(s, i + 1)
        } else {
            None
        }
    } else {
        None
    }
}

/// Reads the inside of a string from `i` to its closing quote: the bytes
/// that the string stands for, escapes resolved, and the place after the
/// quote. A control character that is not escaped is refused, and so is a
/// string that does not end.
pub open spec fn string_body(s: Seq<u8>, i: int) -> Option<(Seq<u8>, int)>
    decreases s.len() - i,
{
    if i < 0 || i >= s.len() {
        None
    } else if s[i] == QUOTE {
        Some((Seq::<u8>::empty(), i + 1))
    } else if s[i] == BACKSLASH {
        match escape_sequence(s, i + 1) {
            Some((bytes, j)) => {
                if j > i {
                    match string_body(s, j) {
                        Some((rest, k)) => Some((bytes + rest, k)),
                        None => None,
                    }
                } else {
                    None
                }
            },
            None => None,
        }
    } else if s[i] < 0x20 {
        None
    } else {
        match string_body(s, i + 1) {
            Some((rest, k)) => Some((seq![s[i]] + rest, k)),
            None => None,
        }
    }
}

/// Reads a string at or after `i`, white space skipped.
pub open spec fn string_token(s: Seq<u8>, i: int) -> Option<(Seq<u8>, int)> {
    match token(s, i, QUOTE) {
        Some(j) => string_body(s, j),
        None => None,
    }
}

/// The bytes of the four strings of an envelope, escapes resolved.
pub struct Envelope {
    pub name: Seq<u8>,
    pub protocol_version: Seq<u8>,
    pub correlation_id: Seq<u8>,
    pub request_json: Seq<u8>,
}

/// Reads an array of exactly three strings at or after `i`.
pub open spec fn three_strings(s: Seq<u8>, i: int) -> Option<((Seq<u8>, Seq<u8>, Seq<u8>), int)> {
    match token(s, i, BRACKET_OPEN) {
        Some(i1) => match string_token(s, i1) {
            Some((first, i2)) => match token(s, i2, COMMA) {
                Some(i3) => match string_token(s, i3) {
                    Some((second, i4)) => match token(s, i4, COMMA) {
                        Some(i5) => match string_token(s, i5) {
                            Some((third, i6)) => match token(s, i6, BRACKET_CLOSE) {
                                Some(i7) => Some(((first, second, third), i7)),
                                None => None,
                            },
                            None => None,
                        },
                        None => None,
                    },
                    None => None,
                },
                None => None,
            },
            None => None,
        },
        None => None,
    }
}

/// Reads an object with one member whose value is an array of three
/// strings, at or after `i`: the envelope and the place after its closing
/// brace.
pub open spec fn object(s: Seq<u8>, i: int) -> Option<(Envelope, int)> {
    match token(s, i, BRACE_OPEN) {
        Some(i1) => match string_token(s, i1) {
            Some((name, i2)) => match token(s, i2, COLON) {
                Some(i3) => match three_strings(s, i3) {
                    Some((fields, i4)) => match token(s, i4, BRACE_CLOSE) {
                        Some(i5) => Some(
                            (
                                Envelope {
                                    name,
                                    protocol_version: fields.0,
                                    correlation_id: fields.1,
                                    request_json: fields.2,
                                },
                                i5,
                            ),
                        ),
                        None => None,
                    },
                    None => None,
                },
                None => None,
            },
            None => None,
        },
        None => None,
    }
}

/// Reads all of `s` as one envelope: one object, and nothing but white
/// space before it and after it.
pub open spec fn envelope(s: Seq<u8>) -> Option<Envelope> {
    match object(s, 0) {
        Some((e, end)) => {
            if skip_spaces(s, end) == s.len() {
                Some(e)
            } else {
                None
            }
        },
        None => None,
    }
}

/// The bytes of an operation's name.
pub open spec fn name_bytes(operation: Operation) -> Seq<u8> {
    encode_utf8(operation.spec_wire_name())
}

/// The operation that goes by the name `name`.
pub open spec fn operation_named(name: Seq<u8>) -> Option<Operation> {
    if name == name_bytes(Operation::AcquireTokenInteractively) {
        Some(Operation::AcquireTokenInteractively)
    } else if name == name_bytes(Operation::AcquireTokenSilently) {
        Some(Operation::AcquireTokenSilently)
    } else if name == name_bytes(Operation::GetAccounts) {
        Some(Operation::GetAccounts)
    } else if name == name_bytes(Operation::RemoveAccount) {
        Some(Operation::RemoveAccount)
    } else if name == name_bytes(Operation::AcquirePrtSsoCookie) {
        Some(Operation::AcquirePrtSsoCookie)
    } else if name == name_bytes(Operation::GenerateSignedHttpRequest) {
        Some(Operation::GenerateSignedHttpRequest)
    } else if name == name_bytes(Operation::CancelInteractiveFlow) {
        Some(Operation::CancelInteractiveFlow)
    } else if name == name_bytes(Operation::GetLinuxBrokerVersion) {
        Some(Operation::GetLinuxBrokerVersion)
    } else {
        None
    }
}

/// The request that the bytes `s` are, where they are one: all of `s` is
/// one envelope, its name is that of an operation, and its three strings
/// are UTF-8.
pub open spec fn spec_decode(s: Seq<u8>) -> Option<RequestModel> {
    match envelope(s) {
        Some(e) => match operation_named(e.name) {
            Some(operation) => {
                if valid_utf8(e.protocol_version) && valid_utf8(e.correlation_id) && valid_utf8(
                    e.request_json,
                ) {
                    Some(
                        RequestModel {
                            operation,
                            protocol_version: decode_utf8(e.protocol_version),
                            correlation_id: decode_utf8(e.correlation_id),
                            request_json: decode_utf8(e.request_json),
                        },
                    )
                } else {
                    None
                }
            },
            None => None,
        },
        None => None,
    }
}

/// The lower-case hexadecimal digit for `d`.
pub open spec fn hex_char(d: int) -> u8 {
    if d < 10 {
        (0x30 + d) as u8
    } else {
        (0x61 + d - 10) as u8
    }
}

/// How one byte of a string is written between the quotes: the quote and
/// the backslash behind a backslash, control characters by their short
/// escape or as `\u00..`, every other byte as it is.
pub open spec fn escape_byte(b: u8) -> Seq<u8> {
    if b == QUOTE {
        seq![BACKSLASH, QUOTE]
    } else if b == BACKSLASH {
        seq![BACKSLASH, BACKSLASH]
    } else if b == 0x08 {
        seq![BACKSLASH, 0x62u8]
    } else if b == 0x0c {
        seq![BACKSLASH, 0x66u8]
    } else if b == 0x0a {
        seq![BACKSLASH, 0x6eu8]
    } else if b == 0x0d {
        seq![BACKSLASH, 0x72u8]
    } else if b == 0x09 {
        seq![BACKSLASH, 0x74u8]
    } else if b < 0x20 {
        seq![BACKSLASH, 0x75u8, 0x30u8, 0x30u8, hex_char(b as int / 16), hex_char(b as int % 16)]
    } else {
        seq![b]
    }
}

/// How the bytes of a string are written between the quotes.
pub open spec fn escape(content: Seq<u8>) -> Seq<u8>
    decreases content.len(),
{
    if content.len() == 0 {
        Seq::<u8>::empty()
    } else {
        escape_byte(content[0]) + escape(content.drop_first())
    }
}

/// A string as it is written: its bytes, escaped, between two quotes.
pub open spec fn quoted(content: Seq<u8>) -> Seq<u8> {
    seq![QUOTE] + escape(content) + seq![QUOTE]
}

/// A request as it is written: no white space, the fields in the order
/// protocol version, correlation id, request document.
pub open spec fn spec_encode(request: RequestModel) -> Seq<u8> {
    seq![BRACE_OPEN] + quoted(name_bytes(request.operation)) + seq![COLON, BRACKET_OPEN] + quoted(
        encode_utf8(request.protocol_version),
    ) + seq![COMMA] + quoted(encode_utf8(request.correlation_id)) + seq![COMMA] + quoted(
        encode_utf8(request.request_json),
    ) + seq![BRACKET_CLOSE, BRACE_CLOSE]
}

} // verus!
