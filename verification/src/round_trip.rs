//! Writing and reading are inverse: a request that is written by the
//! grammar of `crate::wire` is read back as it was.

use crate::broker_proto::{Operation, RequestModel};
use crate::wire::{
    escape, escape_byte, escape_sequence, hex_char, hex_digit, hex_quad, is_space, name_bytes,
    object, operation_named, quoted, skip_spaces, spec_decode, spec_encode, string_body,
    string_token, three_strings, token, unicode_escape, Envelope, BACKSLASH, BRACE_CLOSE,
    BRACE_OPEN, BRACKET_CLOSE, BRACKET_OPEN, COLON, COMMA, QUOTE,
};
use vstd::prelude::*;
use vstd::utf8::{encode_scalar, encode_utf8, encode_utf8_decode_utf8, encode_utf8_valid_utf8};

verus! {

/// A token that stands at `i` is read there.
pub proof fn lemma_token_here(s: Seq<u8>, i: int, c: u8)
    requires
        0 <= i < s.len(),
        s[i] == c,
        !is_space(c),
    ensures
        token(s, i, c) == Some(i + 1),
{
}

/// A byte below 128 is its own UTF-8 encoding.
proof fn lemma_low_byte_encodes_itself(b: u8)
    requires
        b < 0x80,
    ensures
        encode_scalar(b as u32) == seq![b],
{
    assert(((b as u32) & 0x7F) as u8 == b) by (bit_vector)
        requires
            b < 0x80,
    ;
}

/// The escaped form of a string, followed by a quote, is read back as the
/// string.
pub proof fn lemma_escaped_reads_back(s: Seq<u8>, i: int, content: Seq<u8>)
    requires
        0 <= i,
        i + escape(content).len() < s.len(),
        s.subrange(i, i + escape(content).len()) == escape(content),
        s[i + escape(content).len()] == QUOTE,
    ensures
        string_body(s, i) == Some((content, i + escape(content).len() + 1)),
    decreases content.len(),
{
    let n = escape(content).len() as int;
    if content.len() == 0 {
        assert(content =~= Seq::<u8>::empty());
    } else {
        let b = content[0];
        let e = escape_byte(b);
        let rest = content.drop_first();
        let m = e.len() as int;
        assert(escape(content) == e + escape(rest));
        assert forall|k: int| 0 <= k < n implies s[i + k] == #[trigger] escape(content)[k] by {
            assert(s.subrange(i, i + n)[k] == s[i + k]);
        }
        assert forall|k: int| 0 <= k < m implies s[i + k] == #[trigger] e[k] by {
            assert(escape(content)[k] == e[k]);
        }
        assert(s.subrange(i + m, i + n) =~= escape(rest)) by {
            assert forall|k: int| 0 <= k < n - m implies s.subrange(i + m, i + n)[k] == escape(
                rest,
            )[k] by {
                assert(escape(content)[m + k] == escape(rest)[k]);
            }
        }
        lemma_escaped_reads_back(s, i + m, rest);
        assert(seq![b] + rest =~= content);
        assert(s[i] == e[0]);
        if b == QUOTE || b == BACKSLASH || b == 0x08 || b == 0x0c || b == 0x0a || b == 0x0d || b
            == 0x09 {
            assert(s[i + 1] == e[1]);
        } else if b < 0x20 {
            assert(s[i + 1] == e[1]);
            assert(s[i + 2] == e[2]);
            assert(s[i + 3] == e[3]);
            assert(s[i + 4] == e[4]);
            assert(s[i + 5] == e[5]);
            assert(hex_digit(hex_char(b as int / 16)) == Some(b as int / 16));
            assert(hex_digit(hex_char(b as int % 16)) == Some(b as int % 16));
            assert(hex_quad(s, i + 2) == Some(b as int));
            lemma_low_byte_encodes_itself(b);
            assert(unicode_escape(s, i + 2) == Some((seq![b], i + 6)));
            assert(escape_sequence(s, i + 1) == Some((seq![b], i + 6)));
        } else {
        }
    }
}

/// A string as it is written is read back as the string.
pub proof fn lemma_quoted_reads_back(s: Seq<u8>, i: int, content: Seq<u8>)
    requires
        0 <= i,
        i + quoted(content).len() <= s.len(),
        s.subrange(i, i + quoted(content).len()) == quoted(content),
    ensures
        string_token(s, i) == Some((content, i + quoted(content).len())),
{
    let q = quoted(content);
    let n = escape(content).len() as int;
    assert(q.len() == n + 2);
    assert forall|k: int| 0 <= k < n + 2 implies s[i + k] == #[trigger] q[k] by {
        assert(s.subrange(i, i + q.len())[k] == s[i + k]);
    }
    assert(s[i] == q[0]);
    assert(s[i + n + 1] == q[n + 1]);
    lemma_token_here(s, i, QUOTE);
    assert(s.subrange(i + 1, i + 1 + n) =~= escape(content)) by {
        assert forall|k: int| 0 <= k < n implies s.subrange(i + 1, i + 1 + n)[k] == escape(
            content,
        )[k] by {
            assert(q[k + 1] == escape(content)[k]);
        }
    }
    lemma_escaped_reads_back(s, i + 1, content);
}

/// The name of an operation is the name of no other.
pub proof fn lemma_operation_named(operation: Operation)
    ensures
        operation_named(name_bytes(operation)) == Some(operation),
{
    assert forall|other: Operation| name_bytes(other) == name_bytes(operation) implies other
        == operation by {
        encode_utf8_decode_utf8(other.spec_wire_name());
        encode_utf8_decode_utf8(operation.spec_wire_name());
        Operation::law_wire_names_distinct(other, operation);
    }
}

/// Every request that is written is read back as it was: the operation and
/// the three fields are those that were written.
pub proof fn law_decode_inverts_encode(request: RequestModel)
    ensures
        spec_decode(spec_encode(request)) == Some(request),
{
    let name = name_bytes(request.operation);
    let a = encode_utf8(request.protocol_version);
    let b = encode_utf8(request.correlation_id);
    let c = encode_utf8(request.request_json);
    let s = spec_encode(request);
    let i1 = 1int;
    let i2 = i1 + quoted(name).len();
    let i3 = i2 + 2;
    let i4 = i3 + quoted(a).len();
    let i5 = i4 + 1;
    let i6 = i5 + quoted(b).len();
    let i7 = i6 + 1;
    let i8 = i7 + quoted(c).len();
    assert(s.len() == i8 + 2);
    assert(s.subrange(i1, i2) =~= quoted(name));
    assert(s.subrange(i3, i4) =~= quoted(a));
    assert(s.subrange(i5, i6) =~= quoted(b));
    assert(s.subrange(i7, i8) =~= quoted(c));
    assert(s[0] == BRACE_OPEN);
    assert(s[i2] == COLON);
    assert(s[i2 + 1] == BRACKET_OPEN);
    assert(s[i4] == COMMA);
    assert(s[i6] == COMMA);
    assert(s[i8] == BRACKET_CLOSE);
    assert(s[i8 + 1] == BRACE_CLOSE);
    lemma_token_here(s, 0, BRACE_OPEN);
    lemma_quoted_reads_back(s, i1, name);
    lemma_token_here(s, i2, COLON);
    lemma_token_here(s, i2 + 1, BRACKET_OPEN);
    lemma_quoted_reads_back(s, i3, a);
    lemma_token_here(s, i4, COMMA);
    lemma_quoted_reads_back(s, i5, b);
    lemma_token_here(s, i6, COMMA);
    lemma_quoted_reads_back(s, i7, c);
    lemma_token_here(s, i8, BRACKET_CLOSE);
    lemma_token_here(s, i8 + 1, BRACE_CLOSE);
    assert(three_strings(s, i3 - 1) == Some(((a, b, c), i8 + 1)));
    assert(object(s, 0) == Some(
        (Envelope { name, protocol_version: a, correlation_id: b, request_json: c }, i8 + 2),
    ));
    assert(skip_spaces(s, i8 + 2) == s.len());
    lemma_operation_named(request.operation);
    encode_utf8_valid_utf8(request.protocol_version);
    encode_utf8_valid_utf8(request.correlation_id);
    encode_utf8_valid_utf8(request.request_json);
    encode_utf8_decode_utf8(request.protocol_version);
    encode_utf8_decode_utf8(request.correlation_id);
    encode_utf8_decode_utf8(request.request_json);
}

/// Bytes that are one request stay that request when it is written again:
/// reading them, writing what was read and reading that gives the same
/// operation and the same three fields.
pub proof fn law_rewritten_request_is_the_same(bytes: Seq<u8>)
    requires
        spec_decode(bytes) is Some,
    ensures
        spec_decode(spec_encode(spec_decode(bytes).unwrap())) == spec_decode(bytes),
{
    law_decode_inverts_encode(spec_decode(bytes).unwrap());
}

} // verus!
