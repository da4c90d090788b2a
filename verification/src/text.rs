//! Strings and their UTF-8 bytes.
//!
//! Strings are compared, split and searched through their bytes. The lemmas
//! here carry what is found in the bytes over to the characters.

use vstd::prelude::*;
use vstd::utf8::{
    char_u32_cast, encode_scalar, encode_utf8, encode_utf8_decode_utf8, encode_utf8_first_scalar,
    encode_utf8_valid_utf8, is_ascii_chars, is_char_boundary, pop_first_scalar,
};

verus! {

/// A character takes between one and four bytes.
pub proof fn lemma_utf8_len(chars: Seq<char>)
    ensures
        chars.len() <= encode_utf8(chars).len() <= 4 * chars.len(),
    decreases chars.len(),
{
    if chars.len() > 0 {
        lemma_utf8_len(chars.drop_first());
    }
}

/// The bytes of two strings joined are the bytes of the one followed by the
/// bytes of the other.
pub proof fn lemma_utf8_concat(a: Seq<char>, b: Seq<char>)
    ensures
        encode_utf8(a + b) == encode_utf8(a) + encode_utf8(b),
    decreases a.len(),
{
    if a.len() == 0 {
        assert(a + b == b);
    } else {
        assert((a + b).drop_first() == a.drop_first() + b);
        lemma_utf8_concat(a.drop_first(), b);
    }
}

/// Two strings with the same bytes are the same string.
pub proof fn lemma_utf8_injective(a: Seq<char>, b: Seq<char>)
    requires
        encode_utf8(a) == encode_utf8(b),
    ensures
        a == b,
{
    encode_utf8_decode_utf8(a);
    encode_utf8_decode_utf8(b);
}

/// A byte with one of UTF-8's lead or continuation marks set is not ASCII.
proof fn lemma_high_bit(y: u8)
    by (bit_vector)
    ensures
        0x80u8 | y >= 0x80u8,
        0xC0u8 | y >= 0x80u8,
        0xE0u8 | y >= 0x80u8,
        0xF0u8 | y >= 0x80u8,
{
}

/// Masking an ASCII value to seven bits leaves it as it is.
proof fn lemma_low_bits(v: u32)
    by (bit_vector)
    requires
        v <= 0x7Fu32,
    ensures
        v & 0x7Fu32 == v,
{
}

/// Two ASCII characters with the same byte are the same character.
pub proof fn lemma_ascii_same(a: char, b: char)
    requires
        a as u32 <= 0x7F,
        b as u32 <= 0x7F,
        a as u8 == b as u8,
    ensures
        a == b,
{
    char_u32_cast(a, a as u32);
    char_u32_cast(b, b as u32);
}

/// An ASCII character is one byte, itself; every byte of any other
/// character has its high bit set.
pub proof fn lemma_scalar_bytes(c: char)
    ensures
        encode_scalar(c as u32).len() >= 1,
        c as u32 <= 0x7F ==> c as u8 == c as u32,
        c as u32 > 0x7F ==> encode_scalar(c as u32)[0] >= 0x80,
        c as u32 <= 0x7F ==> encode_scalar(c as u32) == seq![c as u8],
        c as u32 > 0x7F ==> forall|j: int|
            0 <= j < encode_scalar(c as u32).len() ==> #[trigger] encode_scalar(c as u32)[j]
                >= 0x80,
{
    let v = c as u32;
    if v <= 0x7F {
        lemma_low_bits(v);
        assert(encode_scalar(v) =~= seq![c as u8]);
    } else {
        lemma_high_bit(((v >> 6) & 0x1F) as u8);
        lemma_high_bit(((v >> 12) & 0x0F) as u8);
        lemma_high_bit(((v >> 18) & 0x7) as u8);
        lemma_high_bit((v & 0x3F) as u8);
        lemma_high_bit(((v >> 6) & 0x3F) as u8);
        lemma_high_bit(((v >> 12) & 0x3F) as u8);
    }
}

/// An ASCII character occurs in a string exactly when its byte occurs among
/// the string's bytes.
pub proof fn lemma_ascii_byte_in_utf8(chars: Seq<char>, c: char)
    requires
        c as u32 <= 0x7F,
    ensures
        encode_utf8(chars).contains(c as u8) <==> chars.contains(c),
    decreases chars.len(),
{
    if chars.len() > 0 {
        let head = encode_scalar(chars[0] as u32);
        let rest = chars.drop_first();
        let tail = encode_utf8(rest);
        lemma_ascii_byte_in_utf8(rest, c);
        lemma_scalar_bytes(chars[0]);
        if chars.contains(c) {
            let i = choose|i: int| 0 <= i < chars.len() && chars[i] == c;
            if i == 0 {
                assert((head + tail)[0] == c as u8);
            } else {
                assert(rest[i - 1] == c);
                let j = choose|j: int| 0 <= j < tail.len() && tail[j] == c as u8;
                assert((head + tail)[head.len() + j] == c as u8);
            }
        }
        if (head + tail).contains(c as u8) {
            let j = choose|j: int| 0 <= j < (head + tail).len() && (head + tail)[j] == c as u8;
            if j < head.len() {
                lemma_ascii_same(chars[0], c);
            } else {
                assert(tail[j - head.len()] == c as u8);
                let i = choose|i: int| 0 <= i < rest.len() && rest[i] == c;
                assert(chars[i + 1] == c);
            }
        }
    }
}

/// A string whose first byte is below `0x80` begins with the ASCII character
/// for that byte, and the remaining bytes are those of the remaining
/// characters.
pub proof fn lemma_ascii_first(s: Seq<char>)
    requires
        encode_utf8(s).len() > 0,
        encode_utf8(s)[0] <= 0x7F,
    ensures
        s.len() > 0,
        s[0] as u32 <= 0x7F,
        s[0] as u8 == encode_utf8(s)[0],
        encode_utf8(s.drop_first()) == encode_utf8(s).skip(1),
{
    lemma_scalar_bytes(s[0]);
    let head = encode_scalar(s[0] as u32);
    let tail = encode_utf8(s.drop_first());
    assert(encode_utf8(s) == head + tail);
    assert((head + tail)[0] == head[0]);
    assert(tail =~= (head + tail).skip(1));
}

/// If the bytes of a string begin with the bytes of an ASCII string, then
/// the string begins with that ASCII string, and the bytes that follow are
/// the bytes of the characters that follow.
pub proof fn lemma_ascii_prefix(s: Seq<char>, p: Seq<char>)
    requires
        is_ascii_chars(p),
        encode_utf8(p).is_prefix_of(encode_utf8(s)),
    ensures
        p.is_prefix_of(s),
        encode_utf8(p).len() == p.len(),
        encode_utf8(s.skip(p.len() as int)) == encode_utf8(s).skip(p.len() as int),
    decreases p.len(),
{
    if p.len() == 0 {
        assert(s.skip(0) == s);
        assert(encode_utf8(s).skip(0) == encode_utf8(s));
    } else {
        let p_rest = p.drop_first();
        let s_rest = s.drop_first();
        lemma_scalar_bytes(p[0]);
        lemma_ascii_first(p);
        lemma_ascii_first(s);
        lemma_ascii_same(s[0], p[0]);
        assert(encode_utf8(p_rest).is_prefix_of(encode_utf8(s_rest))) by {
            assert(encode_utf8(p_rest) =~= encode_utf8(s_rest).subrange(
                0,
                encode_utf8(p_rest).len() as int,
            ));
        }
        lemma_ascii_prefix(s_rest, p_rest);
        assert(p =~= s.subrange(0, p.len() as int)) by {
            assert forall|i: int| 0 <= i < p.len() implies p[i] == s[i] by {
                if i > 0 {
                    assert(p[i] == p_rest[i - 1]);
                    assert(s_rest.subrange(0, p_rest.len() as int)[i - 1] == s_rest[i - 1]);
                }
            }
        }
        assert(s.skip(p.len() as int) =~= s_rest.skip(p_rest.len() as int));
        assert(encode_utf8(s).skip(p.len() as int) =~= encode_utf8(s_rest).skip(
            p_rest.len() as int,
        ));
    }
}

/// Where the bytes of one string end and the bytes of the next begin, a
/// character begins.
pub proof fn lemma_boundary_between(a: Seq<char>, b: Seq<char>)
    ensures
        is_char_boundary(encode_utf8(a + b), encode_utf8(a).len() as int),
    decreases a.len(),
{
    let bytes = encode_utf8(a + b);
    encode_utf8_valid_utf8(a + b);
    lemma_utf8_concat(a, b);
    if a.len() > 0 {
        lemma_scalar_bytes(a[0]);
        encode_utf8_first_scalar(a + b);
        assert((a + b).drop_first() == a.drop_first() + b);
        assert(pop_first_scalar(bytes) =~= encode_utf8(a.drop_first() + b));
        lemma_boundary_between(a.drop_first(), b);
    }
}

/// Whether `prefix` stands at the start of `bytes`.
pub fn starts_with_bytes(bytes: &[u8], prefix: &[u8]) -> (r: bool)
    ensures
        r == prefix@.is_prefix_of(bytes@),
{
    if prefix.len() > bytes.len() {
        return false;
    }
    let mut i: usize = 0;
    while i < prefix.len()
        invariant
            i <= prefix.len() <= bytes.len(),
            prefix@.subrange(0, i as int) == bytes@.subrange(0, i as int),
        decreases prefix.len() - i,
    {
        if prefix[i] != bytes[i] {
            return false;
        }
        assert(prefix@.subrange(0, i + 1) == prefix@.subrange(0, i as int).push(prefix@[i as int]));
        assert(bytes@.subrange(0, i + 1) == bytes@.subrange(0, i as int).push(bytes@[i as int]));
        i += 1;
    }
    assert(prefix@ == prefix@.subrange(0, i as int));
    true
}

/// Whether `byte` occurs in `bytes`.
pub fn contains_byte(bytes: &[u8], byte: u8) -> (r: bool)
    ensures
        r == bytes@.contains(byte),
{
    let mut i: usize = 0;
    while i < bytes.len()
        invariant
            i <= bytes.len(),
            forall|j: int| 0 <= j < i ==> bytes@[j] != byte,
        decreases bytes.len() - i,
    {
        if bytes[i] == byte {
            return true;
        }
        i += 1;
    }
    false
}

/// Whether two strings are the same, character for character.
pub fn same_text(a: &str, b: &str) -> (r: bool)
    ensures
        r == (a@ == b@),
{
    let x = a.as_bytes();
    let y = b.as_bytes();
    let same = x.len() == y.len() && starts_with_bytes(x, y);
    proof {
        if same {
            assert(x@ =~= y@);
            lemma_utf8_injective(a@, b@);
        }
    }
    same
}

/// What follows `prefix` in `text`, if `text` begins with it. The prefix
/// must be ASCII.
pub fn strip_ascii_prefix<'a>(text: &'a str, prefix: &str) -> (r: Option<&'a str>)
    requires
        is_ascii_chars(prefix@),
    ensures
        match r {
            Some(rest) => text@ == prefix@ + rest@,
            None => !prefix@.is_prefix_of(text@),
        },
{
    let bytes = text.as_bytes();
    let head = prefix.as_bytes();
    if starts_with_bytes(bytes, head) {
        proof {
            lemma_ascii_prefix(text@, prefix@);
            let rest = text@.skip(prefix@.len() as int);
            assert(text@ == prefix@ + rest);
            lemma_boundary_between(prefix@, rest);
        }
        let (_, rest) = text.split_at(head.len());
        proof {
            lemma_utf8_injective(rest@, text@.skip(prefix@.len() as int));
        }
        Some(rest)
    } else {
        proof {
            if prefix@.is_prefix_of(text@) {
                let rest = text@.skip(prefix@.len() as int);
                assert(text@ == prefix@ + rest);
                lemma_utf8_concat(prefix@, rest);
                assert(encode_utf8(prefix@) =~= encode_utf8(text@).subrange(
                    0,
                    encode_utf8(prefix@).len() as int,
                ));
            }
        }
        None
    }
}

/// Whether the ASCII character with the given byte occurs in `text`.
pub fn contains_ascii(text: &str, byte: u8) -> (r: bool)
    requires
        byte <= 0x7F,
    ensures
        r == text@.contains(byte as char),
{
    proof {
        lemma_ascii_byte_in_utf8(text@, byte as char);
    }
    contains_byte(text.as_bytes(), byte)
}

} // verus!
