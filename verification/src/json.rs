//! JSON string literals: what bytes stand for a string on the wire.
//!
//! The writing itself is done by `simd_json_derive`; this module states what
//! it writes, so that the bodies built from it can be pinned down byte for
//! byte.

use actix_web::web::BytesMut;
use vstd::prelude::*;
use vstd::utf8::{encode_scalar, encode_utf8};

use crate::buffer::{buffer_contents, max_buffer_len};
use crate::text::{lemma_ascii_same, lemma_scalar_bytes, lemma_utf8_concat};

verus! {

/// The lower-case hexadecimal digit for a value below sixteen.
pub open spec fn hex_digit(n: int) -> u8 {
    if n < 10 {
        (0x30 + n) as u8
    } else {
        (0x57 + n) as u8
    }
}

/// What one byte of a string becomes inside a JSON string literal.
///
/// The quote and the backslash get a backslash in front. Control bytes
/// (below `0x20`) get their short form where JSON has one (`\b`, `\t`, `\n`,
/// `\f`, `\r`) and `\u00XX` with lower-case hex digits otherwise. Every other
/// byte, `0x7f` and the bytes of multi-byte characters included, stands for
/// itself.
pub open spec fn escape_byte(b: u8) -> Seq<u8> {
    if b == 0x22 {
        seq![0x5Cu8, 0x22u8]
    } else if b == 0x5C {
        seq![0x5Cu8, 0x5Cu8]
    } else if b == 0x08 {
        seq![0x5Cu8, 0x62u8]
    } else if b == 0x09 {
        seq![0x5Cu8, 0x74u8]
    } else if b == 0x0A {
        seq![0x5Cu8, 0x6Eu8]
    } else if b == 0x0C {
        seq![0x5Cu8, 0x66u8]
    } else if b == 0x0D {
        seq![0x5Cu8, 0x72u8]
    } else if b < 0x20 {
        seq![0x5Cu8, 0x75u8, 0x30u8, 0x30u8, hex_digit(b as int / 16), hex_digit(b as int % 16)]
    } else {
        seq![b]
    }
}

/// The bytes of a string with every byte escaped, in order.
pub open spec fn escape(s: Seq<u8>) -> Seq<u8>
    decreases s.len(),
{
    if s.len() == 0 {
        Seq::<u8>::empty()
    } else {
        escape_byte(s[0]) + escape(s.drop_first())
    }
}

/// A JSON string literal: the escaped bytes between two quotes.
pub open spec fn json_string(s: Seq<u8>) -> Seq<u8> {
    seq![0x22u8] + escape(s) + seq![0x22u8]
}

/// Escaping never shortens a string, and makes it at most six times as long.
pub proof fn lemma_escape_len(s: Seq<u8>)
    ensures
        s.len() <= escape(s).len() <= 6 * s.len(),
    decreases s.len(),
{
    if s.len() > 0 {
        lemma_escape_len(s.drop_first());
    }
}

/// A byte that stands for itself inside a JSON string literal.
pub open spec fn is_plain_byte(b: u8) -> bool {
    b >= 0x20 && b != 0x22 && b != 0x5C
}

/// A character that stands for itself inside a JSON string literal: not a
/// control character, not the quote, not the backslash.
pub open spec fn is_plain_char(c: char) -> bool {
    c as u32 >= 0x20 && c != '"' && c != '\\'
}

/// A string of characters that all stand for themselves.
pub open spec fn is_plain(s: Seq<char>) -> bool {
    forall|i: int| 0 <= i < s.len() ==> is_plain_char(#[trigger] s[i])
}

/// Bytes that all stand for themselves are their own escape.
pub proof fn lemma_escape_plain_bytes(s: Seq<u8>)
    requires
        forall|i: int| 0 <= i < s.len() ==> is_plain_byte(#[trigger] s[i]),
    ensures
        escape(s) == s,
    decreases s.len(),
{
    if s.len() > 0 {
        assert forall|i: int| 0 <= i < s.drop_first().len() implies is_plain_byte(
            #[trigger] s.drop_first()[i],
        ) by {
            assert(s.drop_first()[i] == s[i + 1]);
        }
        lemma_escape_plain_bytes(s.drop_first());
        assert(seq![s[0]] + s.drop_first() == s);
    }
}

/// Every byte of a plain string stands for itself.
pub proof fn lemma_plain_utf8(s: Seq<char>)
    requires
        is_plain(s),
    ensures
        forall|i: int| 0 <= i < encode_utf8(s).len() ==> is_plain_byte(#[trigger] encode_utf8(s)[i]),
    decreases s.len(),
{
    if s.len() > 0 {
        let head = encode_scalar(s[0] as u32);
        let tail = encode_utf8(s.drop_first());
        lemma_scalar_bytes(s[0]);
        assert forall|i: int| 0 <= i < s.drop_first().len() implies is_plain_char(
            #[trigger] s.drop_first()[i],
        ) by {
            assert(s.drop_first()[i] == s[i + 1]);
        }
        lemma_plain_utf8(s.drop_first());
        assert forall|i: int| 0 <= i < encode_utf8(s).len() implies is_plain_byte(
            #[trigger] encode_utf8(s)[i],
        ) by {
            assert(encode_utf8(s) == head + tail);
            if i < head.len() {
                assert(encode_utf8(s)[i] == head[i]);
                if s[0] as u32 <= 0x7F && head[i] == 0x22 {
                    lemma_ascii_same(s[0], '"');
                }
                if s[0] as u32 <= 0x7F && head[i] == 0x5C {
                    lemma_ascii_same(s[0], '\\');
                }
            } else {
                assert(encode_utf8(s)[i] == tail[i - head.len()]);
            }
        }
    }
}

/// The JSON literal of a plain string is the string between two quotes.
pub proof fn lemma_json_string_plain(s: Seq<char>)
    requires
        is_plain(s),
    ensures
        json_string(encode_utf8(s)) == encode_utf8("\""@ + s + "\""@),
{
    reveal_strlit("\"");
    let q = "\""@;
    lemma_plain_utf8(s);
    lemma_escape_plain_bytes(encode_utf8(s));
    lemma_utf8_concat(q + s, q);
    lemma_utf8_concat(q, s);
    lemma_scalar_bytes('"');
    assert(encode_utf8(q) == seq![0x22u8]) by {
        reveal_with_fuel(encode_utf8, 2);
    }
}

/// The value of a hexadecimal digit, if the byte is one.
pub open spec fn hex_value(d: u8) -> Option<int> {
    if 0x30 <= d <= 0x39 {
        Some(d - 0x30)
    } else if 0x61 <= d <= 0x66 {
        Some(d - 0x57)
    } else if 0x41 <= d <= 0x46 {
        Some(d - 0x37)
    } else {
        None
    }
}

/// The byte that a backslash and the given byte stand for, if the two are one
/// of JSON's short escapes.
pub open spec fn short_escape(c: u8) -> Option<u8> {
    if c == 0x22 || c == 0x5C || c == 0x2F {
        Some(c)
    } else if c == 0x62 {
        Some(0x08u8)
    } else if c == 0x74 {
        Some(0x09u8)
    } else if c == 0x6E {
        Some(0x0Au8)
    } else if c == 0x66 {
        Some(0x0Cu8)
    } else if c == 0x72 {
        Some(0x0Du8)
    } else {
        None
    }
}

/// Puts one more byte in front of what has been read.
pub open spec fn read_after(byte: u8, then: Option<(Seq<u8>, Seq<u8>)>) -> Option<
    (Seq<u8>, Seq<u8>),
> {
    match then {
        Some((value, rest)) => Some((seq![byte] + value, rest)),
        None => None,
    }
}

/// Reads the inside of a JSON string literal up to its closing quote: the
/// bytes of the string it stands for, and what follows the quote.
///
/// Nothing is read where the literal is not closed, where a control byte
/// stands bare, or where an escape is not one of JSON's. A `\u` escape is
/// read only where it stands for an ASCII character.
pub open spec fn read_string_inside(b: Seq<u8>) -> Option<(Seq<u8>, Seq<u8>)>
    decreases b.len(),
{
    if b.len() == 0 {
        None
    } else if b[0] == 0x22 {
        Some((Seq::<u8>::empty(), b.skip(1)))
    } else if b[0] == 0x5C {
        if b.len() >= 2 && short_escape(b[1]) is Some {
            read_after(short_escape(b[1])->0, read_string_inside(b.skip(2)))
        } else if b.len() >= 6 && b[1] == 0x75 && b[2] == 0x30 && b[3] == 0x30 && hex_value(b[4]) is Some
            && hex_value(b[5]) is Some && hex_value(b[4])->0 < 8 {
            read_after(
                (16 * hex_value(b[4])->0 + hex_value(b[5])->0) as u8,
                read_string_inside(b.skip(6)),
            )
        } else {
            None
        }
    } else if b[0] < 0x20 {
        None
    } else {
        read_after(b[0], read_string_inside(b.skip(1)))
    }
}

/// Reads a JSON string literal at the front of `b`: the bytes of the string
/// it stands for, and what follows the literal.
pub open spec fn read_string(b: Seq<u8>) -> Option<(Seq<u8>, Seq<u8>)> {
    if b.len() > 0 && b[0] == 0x22 {
        read_string_inside(b.skip(1))
    } else {
        None
    }
}

proof fn lemma_read_escaped(s: Seq<u8>, rest: Seq<u8>)
    ensures
        read_string_inside(escape(s) + seq![0x22u8] + rest) == Some((s, rest)),
    decreases s.len(),
{
    let b = escape(s) + seq![0x22u8] + rest;
    if s.len() == 0 {
        assert(b.skip(1) == rest);
    } else {
        let e = escape_byte(s[0]);
        let t = s.drop_first();
        let after = escape(t) + seq![0x22u8] + rest;
        lemma_read_escaped(t, rest);
        assert(b == e + after);
        assert(b.skip(e.len() as int) == after);
        assert(seq![s[0]] + t == s);
        if e.len() == 6 {
            let hi = s[0] as int / 16;
            let lo = s[0] as int % 16;
            assert(hex_value(hex_digit(hi)) == Some(hi));
            assert(hex_value(hex_digit(lo)) == Some(lo));
        }
    }
}

/// A string's JSON literal reads back as the string: escaping loses
/// nothing, and the literal ends where its closing quote stands, whatever
/// follows.
pub proof fn lemma_read_json_string(s: Seq<u8>, rest: Seq<u8>)
    ensures
        read_string(json_string(s) + rest) == Some((s, rest)),
{
    let b = json_string(s) + rest;
    assert(b.skip(1) == escape(s) + seq![0x22u8] + rest);
    lemma_read_escaped(s, rest);
}

/// `std::io::Error`, which the JSON writer reports its failures in. It is
/// only carried from the writer to [`io_error_message`].
#[verifier::external_type_specification]
#[verifier::external_body]
pub struct ExIoError(std::io::Error);

/// `simd_json_derive::Serialize::json_write` for `str`, writing into the
/// buffer through the adapter that `bytes::BufMut::writer` gives.
///
/// The JSON writer puts out a quote, the string's bytes escaped as
/// [`escape_byte`] says, and a quote, and fails only where the adapter does.
/// The adapter appends what it is given, up to the limit of the buffer, and
/// refuses what goes beyond. So the call succeeds exactly when the literal
/// fits, and has then appended it; whatever it reports, it has only
/// appended, and the bytes that were there before are still in front.
#[verifier::external_body]
pub(crate) fn write_json_str(text: &str, buf: &mut BytesMut) -> (r: Result<(), std::io::Error>)
    ensures
        r is Ok <==> buffer_contents(*old(buf)).len() + json_string(encode_utf8(text@)).len()
            <= max_buffer_len(),
        r is Ok ==> buffer_contents(*final(buf)) == buffer_contents(*old(buf)) + json_string(
            encode_utf8(text@),
        ),
        buffer_contents(*old(buf)).is_prefix_of(buffer_contents(*final(buf))),
{
    simd_json_derive::Serialize::json_write(text, &mut actix_web::web::BufMut::writer(buf))
}

/// `std::io::Error`'s `to_string`: the error's message, for people to read.
#[verifier::external_body]
pub(crate) fn io_error_message(e: &std::io::Error) -> (msg: String) {
    e.to_string()
}

} // verus!
