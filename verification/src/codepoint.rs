//! One character from the bytes that encode it in UTF-8.
//!
//! The input arrives byte by byte. The first byte of a character says how
//! many bytes the character takes; once they are all there, they are decoded.

use vstd::prelude::*;
use vstd::utf8::*;

verus! {

/// How many bytes a character takes whose encoding starts with `first`, or
/// zero where no encoding starts with that byte.
pub open spec fn char_width_spec(first: u8) -> usize {
    if is_leading_byte_width_1(first) {
        1
    } else if is_leading_byte_width_2(first) {
        2
    } else if is_leading_byte_width_3(first) {
        3
    } else if is_leading_byte_width_4(first) {
        4
    } else {
        0
    }
}

/// The character that `bytes` encode, where they are the whole encoding of
/// exactly one character.
pub open spec fn decode_char_spec(bytes: Seq<u8>) -> Option<char> {
    if valid_first_scalar(bytes) && length_of_first_scalar(bytes) == bytes.len() {
        Some(decode_first_scalar(bytes) as char)
    } else {
        None
    }
}

/// Whether `code` is the number of a character: at most 0x10FFFF, and not
/// one of the surrogates 0xD800 to 0xDFFF.
pub open spec fn is_char_code(code: u32) -> bool {
    code <= 0xD7FF || 0xE000 <= code <= 0x10FFFF
}

/// `char::from_u32` of the standard library: the character with the number
/// `code`, and `None` where no character has that number.
#[verifier::external_body]
fn char_from_u32(code: u32) -> (c: Option<char>)
    ensures
        c == (if is_char_code(code) {
            Some(code as char)
        } else {
            None
        }),
{
    char::from_u32(code)
}

fn is_continuation(byte: u8) -> (b: bool)
    ensures
        b == is_continuation_byte(byte),
{
    0x80 <= byte && byte <= 0xbf
}

/// How many bytes the character takes whose first byte is `first`; zero for
/// a byte that starts no character.
pub fn utf8_char_width(first: u8) -> (width: usize)
    ensures
        width == char_width_spec(first),
{
    if first <= 0x7f {
        1
    } else if 0xc0 <= first && first <= 0xdf {
        2
    } else if 0xe0 <= first && first <= 0xef {
        3
    } else if 0xf0 <= first && first <= 0xf7 {
        4
    } else {
        0
    }
}

/// Decodes the bytes of one character. The result is `None` unless the bytes
/// are the UTF-8 encoding of a single character, all of it and nothing else.
pub fn decode_char(bytes: &[u8]) -> (c: Option<char>)
    ensures
        c == decode_char_spec(bytes@),
{
    let n: usize = bytes.len();
    if n == 0 {
        return None;
    }
    let first: u8 = bytes[0];
    let width: usize = utf8_char_width(first);
    if width == 0 || width != n {
        return None;
    }
    let code: u32 = if width == 1 {
        assert((first & 0x7f) as u32 <= 0x7f) by (bit_vector);
        (first & 0x7f) as u32
    } else if width == 2 {
        let second: u8 = bytes[1];
        if !is_continuation(second) {
            return None;
        }
        assert((((first & 0x1f) as u32) << 6) | ((second & 0x3f) as u32) <= 0x7ff)
            by (bit_vector);
        (((first & 0x1f) as u32) << 6) | ((second & 0x3f) as u32)
    } else if width == 3 {
        let second: u8 = bytes[1];
        let third: u8 = bytes[2];
        if !is_continuation(second) || !is_continuation(third) {
            return None;
        }
        assert((((first & 0x0f) as u32) << 12) | (((second & 0x3f) as u32) << 6) | ((third
            & 0x3f) as u32) <= 0xffff) by (bit_vector);
        (((first & 0x0f) as u32) << 12) | (((second & 0x3f) as u32) << 6) | ((third & 0x3f) as u32)
    } else {
        let second: u8 = bytes[1];
        let third: u8 = bytes[2];
        let fourth: u8 = bytes[3];
        if !is_continuation(second) || !is_continuation(third) || !is_continuation(fourth) {
            return None;
        }
        (((first & 0x07) as u32) << 18) | (((second & 0x3f) as u32) << 12) | (((third
            & 0x3f) as u32) << 6) | ((fourth & 0x3f) as u32)
    };
    assert(code == decode_first_codepoint(bytes@));
    if (width == 2 && code < 0x80) || (width == 3 && code < 0x800) || (width == 4 && (code
        < 0x10000 || code > 0x10ffff)) {
        return None;
    }
    if 0xd800 <= code && code <= 0xdfff {
        return None;
    }
    char_from_u32(code)
}

/// What the bytes read so far have come to.
#[derive(Clone, Copy, Debug, PartialEq, Eq, Structural)]
pub enum CharStep {
    /// The character is not complete: read another byte.
    More,
    /// The bytes were the encoding of this character.
    Char(char),
    /// The bytes are no encoding of a character.
    Invalid,
}

/// The bytes kept and the step taken when `byte` follows the bytes `pending`:
/// the bytes are kept while the first of them asks for more, and decoded, with
/// nothing kept, as soon as they are as many as it asks for.
pub open spec fn push_spec(pending: Seq<u8>, byte: u8) -> (Seq<u8>, CharStep) {
    let bytes = pending.push(byte);
    if bytes.len() < char_width_spec(bytes[0]) {
        (bytes, CharStep::More)
    } else {
        (
            Seq::empty(),
            match decode_char_spec(bytes) {
                Some(c) => CharStep::Char(c),
                None => CharStep::Invalid,
            },
        )
    }
}

/// The bytes of a character that is not yet complete: at most three, since
/// no character takes more than four.
#[derive(Clone, Copy, Debug)]
pub struct CharBuffer {
    len: usize,
    first: u8,
    second: u8,
    third: u8,
}

impl CharBuffer {
    #[verifier::type_invariant]
    closed spec fn wf(self) -> bool {
        &&& self.len <= 3
        &&& self.len > 0 ==> self.len < char_width_spec(self.first)
    }

    /// The bytes read of the character that is begun.
    pub closed spec fn view(&self) -> Seq<u8> {
        if self.len == 0 {
            seq![]
        } else if self.len == 1 {
            seq![self.first]
        } else if self.len == 2 {
            seq![self.first, self.second]
        } else {
            seq![self.first, self.second, self.third]
        }
    }

    /// A buffer with no character begun.
    pub fn new() -> (b: CharBuffer)
        ensures
            b@ == Seq::<u8>::empty(),
    {
        CharBuffer { len: 0, first: 0, second: 0, third: 0 }
    }

    /// Whether a character is begun and not complete.
    pub fn is_partial(&self) -> (b: bool)
        ensures
            b == (self@.len() > 0),
    {
        self.len > 0
    }

    /// Drops the bytes of the character that is begun.
    pub fn clear(&mut self)
        ensures
            (*final(self))@ == Seq::<u8>::empty(),
    {
        *self = CharBuffer::new();
    }

    /// Takes the next byte of the input.
    pub fn push(&mut self, byte: u8) -> (step: CharStep)
        ensures
            (*final(self))@ == push_spec(old(self)@, byte).0,
            step == push_spec(old(self)@, byte).1,
    {
        proof {
            use_type_invariant(&*self);
        }
        let mut bytes: Vec<u8> = Vec::new();
        if self.len >= 1 {
            bytes.push(self.first);
        }
        if self.len >= 2 {
            bytes.push(self.second);
        }
        if self.len >= 3 {
            bytes.push(self.third);
        }
        bytes.push(byte);
        assert(bytes@ =~= old(self)@.push(byte));
        let n: usize = bytes.len();
        if n < utf8_char_width(bytes[0]) {
            let second: u8 = if n >= 2 {
                bytes[1]
            } else {
                0
            };
            let third: u8 = if n >= 3 {
                bytes[2]
            } else {
                0
            };
            *self = CharBuffer { len: n, first: bytes[0], second, third };
            assert(self@ =~= bytes@);
            CharStep::More
        } else {
            let decoded = decode_char(bytes.as_slice());
            *self = CharBuffer::new();
            match decoded {
                Some(c) => CharStep::Char(c),
                None => CharStep::Invalid,
            }
        }
    }
}

/// The first byte of a character's encoding says how long the encoding is,
/// and the whole of it decodes to the character. So a buffer that is handed
/// the encoding byte by byte asks for more until the last byte, and then gives
/// the character.
pub proof fn lemma_encoding_is_announced(c: char)
    ensures
        encode_utf8(seq![c]).len() > 0,
        char_width_spec(encode_utf8(seq![c])[0]) == encode_utf8(seq![c]).len(),
        decode_char_spec(encode_utf8(seq![c])) == Some(c),
{
    let one = seq![c];
    lemma_decode_char_inverts_encoding(encode_utf8(one), c);
    encode_utf8_first_scalar(one);
}

/// Decoding undoes encoding, and nothing else decodes: bytes decode to a
/// character exactly if they are the UTF-8 encoding of that character.
pub proof fn lemma_decode_char_inverts_encoding(bytes: Seq<u8>, c: char)
    ensures
        decode_char_spec(bytes) == Some(c) <==> bytes == encode_utf8(seq![c]),
{
    let one = seq![c];
    assert(one.drop_first() =~= Seq::<char>::empty());
    assert(encode_utf8(one) =~= encode_scalar(c as u32)) by {
        assert(encode_utf8(one.drop_first()) =~= Seq::<u8>::empty());
    }
    if bytes == encode_utf8(one) {
        encode_utf8_first_scalar(one);
        char_u32_cast(c, c as u32);
    }
    if decode_char_spec(bytes) == Some(c) {
        assert(pop_first_scalar(bytes) =~= Seq::<u8>::empty());
        assert(valid_utf8(pop_first_scalar(bytes)));
        assert(valid_utf8(bytes));
        decode_utf8_first_scalar(bytes);
        assert(take_first_scalar(bytes) =~= bytes);
    }
}

} // verus!
