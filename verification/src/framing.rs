//! What the grammar of `crate::wire` means for a stream of bytes.
//!
//! A connection carries no more than one request at a time. While a request
//! is arriving the bytes that have come are no message, and the bytes of two
//! requests together are no message either: a buffer is read as a request
//! only when it holds exactly one.

use crate::broker_proto::RequestModel;
use crate::round_trip::law_decode_inverts_encode;
use crate::wire::{
    escape_sequence, hex_quad, is_space, object, skip_spaces, spec_decode, spec_encode,
    string_body, string_token, three_strings, token, unicode_escape, BACKSLASH, BRACE_CLOSE,
    BRACE_OPEN, BRACKET_CLOSE, BRACKET_OPEN, COLON, COMMA, QUOTE,
};
use vstd::prelude::*;

verus! {

/// Whether `s` begins with `t`.
pub open spec fn begins_with(s: Seq<u8>, t: Seq<u8>) -> bool {
    &&& t.len() <= s.len()
    &&& forall|i: int| 0 <= i < t.len() ==> s[i] == t[i]
}

/// Skipping white space stays within the bytes and never goes back.
pub proof fn lemma_skip_spaces_bounds(s: Seq<u8>, i: int)
    requires
        0 <= i <= s.len(),
    ensures
        i <= skip_spaces(s, i) <= s.len(),
        forall|k: int| i <= k < skip_spaces(s, i) ==> is_space(s[k]),
        skip_spaces(s, i) < s.len() ==> !is_space(s[skip_spaces(s, i)]),
    decreases s.len() - i,
{
    if i < s.len() && is_space(s[i]) {
        lemma_skip_spaces_bounds(s, i + 1);
    }
}

/// White space is skipped alike in bytes and in what begins with them, as
/// long as it ends within them.
proof fn lemma_skip_spaces_extends(s: Seq<u8>, t: Seq<u8>, i: int)
    requires
        begins_with(s, t),
        0 <= i <= t.len(),
    ensures
        skip_spaces(t, i) < t.len() ==> skip_spaces(s, i) == skip_spaces(t, i),
        skip_spaces(t, i) == t.len() ==> skip_spaces(s, i) == skip_spaces(s, t.len() as int),
        i <= skip_spaces(t, i) <= t.len(),
    decreases t.len() - i,
{
    if i < t.len() && is_space(t[i]) {
        lemma_skip_spaces_extends(s, t, i + 1);
    }
}

/// A token that is read in bytes is read alike in what begins with them.
proof fn lemma_token_extends(s: Seq<u8>, t: Seq<u8>, i: int, c: u8)
    requires
        begins_with(s, t),
        token(t, i, c) is Some,
    ensures
        token(s, i, c) == token(t, i, c),
        i < token(t, i, c).unwrap() <= t.len(),
{
    if 0 <= i <= t.len() {
        lemma_skip_spaces_extends(s, t, i);
    }
}

proof fn lemma_hex_quad_extends(s: Seq<u8>, t: Seq<u8>, i: int)
    requires
        begins_with(s, t),
        hex_quad(t, i) is Some,
    ensures
        hex_quad(s, i) == hex_quad(t, i),
{
}

proof fn lemma_unicode_escape_extends(s: Seq<u8>, t: Seq<u8>, i: int)
    requires
        begins_with(s, t),
        unicode_escape(t, i) is Some,
    ensures
        unicode_escape(s, i) == unicode_escape(t, i),
        i < unicode_escape(t, i).unwrap().1 <= t.len(),
{
    lemma_hex_quad_extends(s, t, i);
    let n = hex_quad(t, i).unwrap();
    if 0xD800 <= n <= 0xDBFF {
        lemma_hex_quad_extends(s, t, i + 6);
    }
}

proof fn lemma_escape_sequence_extends(s: Seq<u8>, t: Seq<u8>, i: int)
    requires
        begins_with(s, t),
        escape_sequence(t, i) is Some,
    ensures
        escape_sequence(s, i) == escape_sequence(t, i),
        i < escape_sequence(t, i).unwrap().1 <= t.len(),
{
    if t[i] == 0x75 {
        lemma_unicode_escape_extends(s, t, i + 1);
    }
}

/// A string that is read in bytes is read alike in what begins with them.
proof fn lemma_string_body_extends(s: Seq<u8>, t: Seq<u8>, i: int)
    requires
        begins_with(s, t),
        string_body(t, i) is Some,
    ensures
        string_body(s, i) == string_body(t, i),
        i < string_body(t, i).unwrap().1 <= t.len(),
    decreases t.len() - i,
{
    if t[i] == QUOTE {
    } else if t[i] == BACKSLASH {
        lemma_escape_sequence_extends(s, t, i + 1);
        let j = escape_sequence(t, i + 1).unwrap().1;
        lemma_string_body_extends(s, t, j);
    } else {
        lemma_string_body_extends(s, t, i + 1);
    }
}

proof fn lemma_string_token_extends(s: Seq<u8>, t: Seq<u8>, i: int)
    requires
        begins_with(s, t),
        string_token(t, i) is Some,
    ensures
        string_token(s, i) == string_token(t, i),
        i < string_token(t, i).unwrap().1 <= t.len(),
{
    lemma_token_extends(s, t, i, QUOTE);
    lemma_string_body_extends(s, t, token(t, i, QUOTE).unwrap());
}

proof fn lemma_three_strings_extends(s: Seq<u8>, t: Seq<u8>, i: int)
    requires
        begins_with(s, t),
        three_strings(t, i) is Some,
    ensures
        three_strings(s, i) == three_strings(t, i),
        i < three_strings(t, i).unwrap().1 <= t.len(),
{
    lemma_token_extends(s, t, i, BRACKET_OPEN);
    let i1 = token(t, i, BRACKET_OPEN).unwrap();
    lemma_string_token_extends(s, t, i1);
    let i2 = string_token(t, i1).unwrap().1;
    lemma_token_extends(s, t, i2, COMMA);
    let i3 = token(t, i2, COMMA).unwrap();
    lemma_string_token_extends(s, t, i3);
    let i4 = string_token(t, i3).unwrap().1;
    lemma_token_extends(s, t, i4, COMMA);
    let i5 = token(t, i4, COMMA).unwrap();
    lemma_string_token_extends(s, t, i5);
    let i6 = string_token(t, i5).unwrap().1;
    lemma_token_extends(s, t, i6, BRACKET_CLOSE);
}

/// An object that is read in bytes is read alike in what begins with them.
pub proof fn lemma_object_extends(s: Seq<u8>, t: Seq<u8>, i: int)
    requires
        begins_with(s, t),
        object(t, i) is Some,
    ensures
        object(s, i) == object(t, i),
        i < object(t, i).unwrap().1 <= t.len(),
{
    lemma_token_extends(s, t, i, BRACE_OPEN);
    let i1 = token(t, i, BRACE_OPEN).unwrap();
    lemma_string_token_extends(s, t, i1);
    let i2 = string_token(t, i1).unwrap().1;
    lemma_token_extends(s, t, i2, COLON);
    let i3 = token(t, i2, COLON).unwrap();
    lemma_three_strings_extends(s, t, i3);
    let i4 = three_strings(t, i3).unwrap().1;
    lemma_token_extends(s, t, i4, BRACE_CLOSE);
}

/// Where bytes are one request and a shorter beginning of them is one too,
/// it is the same request, and what was left off is white space.
pub proof fn law_shorter_message_differs_in_white_space(s: Seq<u8>, k: int)
    requires
        0 <= k <= s.len(),
        spec_decode(s) is Some,
        spec_decode(s.take(k)) is Some,
    ensures
        spec_decode(s.take(k)) == spec_decode(s),
        forall|i: int| k <= i < s.len() ==> is_space(s[i]),
{
    let t = s.take(k);
    assert(begins_with(s, t));
    lemma_object_extends(s, t, 0);
    let end = object(t, 0).unwrap().1;
    lemma_skip_spaces_bounds(s, end);
}

/// A request that is cut short is no message: of the bytes of a written
/// request, no beginning but the whole is read as a request.
pub proof fn law_cut_request_is_no_message(request: RequestModel, k: int)
    requires
        0 <= k < spec_encode(request).len(),
    ensures
        spec_decode(spec_encode(request).take(k)) is None,
{
    let s = spec_encode(request);
    law_decode_inverts_encode(request);
    if spec_decode(s.take(k)) is Some {
        law_shorter_message_differs_in_white_space(s, k);
        assert(s[s.len() - 1] == BRACE_CLOSE);
        assert(is_space(s[s.len() - 1]));
    }
}

/// White space is skipped across the place where two runs of bytes are
/// joined.
proof fn lemma_skip_spaces_joined(a: Seq<u8>, b: Seq<u8>, i: int)
    requires
        0 <= i <= a.len(),
        skip_spaces(a, i) == a.len(),
    ensures
        skip_spaces(a + b, i) == a.len() + skip_spaces(b, 0),
    decreases a.len() - i,
{
    if i < a.len() {
        assert((a + b)[i] == a[i]);
        lemma_skip_spaces_joined(a, b, i + 1);
    } else {
        lemma_skip_spaces_shifted(a, b, 0);
    }
}

proof fn lemma_skip_spaces_shifted(a: Seq<u8>, b: Seq<u8>, i: int)
    requires
        0 <= i <= b.len(),
    ensures
        skip_spaces(a + b, a.len() + i) == a.len() + skip_spaces(b, i),
    decreases b.len() - i,
{
    if i < b.len() {
        assert((a + b)[a.len() + i] == b[i]);
        if is_space(b[i]) {
            lemma_skip_spaces_shifted(a, b, i + 1);
        }
    }
}

/// Two requests in one buffer are no message: requests cannot be sent one
/// behind the other without waiting for the answer in between.
pub proof fn law_two_messages_are_no_message(a: Seq<u8>, b: Seq<u8>)
    requires
        spec_decode(a) is Some,
        spec_decode(b) is Some,
    ensures
        spec_decode(a + b) is None,
{
    let s = a + b;
    assert(begins_with(s, a));
    lemma_object_extends(s, a, 0);
    let end = object(a, 0).unwrap().1;
    lemma_skip_spaces_joined(a, b, end);
    lemma_skip_spaces_bounds(b, 0);
    assert(token(b, 0, BRACE_OPEN) is Some);
    assert(skip_spaces(b, 0) < b.len());
}

/// Nothing is a message of no bytes.
pub proof fn law_empty_is_no_message()
    ensures
        spec_decode(Seq::<u8>::empty()) is None,
{
}

} // verus!
