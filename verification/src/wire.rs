//! Byte-level building blocks of the wire format.
//!
//! Everything of variable length travels as a block: its length as four
//! little-endian bytes, then its bytes. A frame on the stream is a block; so
//! is a text or a byte string inside a message. For each building block
//! there is a layout and a parser as `spec` functions, a lemma that parsing
//! undoes the layout, and an executable writer and reader that compute
//! exactly these.

use vstd::prelude::*;
use vstd::bytes::{
    lemma_auto_spec_u128_to_from_le_bytes,
    lemma_auto_spec_u32_to_from_le_bytes,
    spec_u128_from_le_bytes,
    spec_u128_to_le_bytes,
    spec_u32_from_le_bytes,
    spec_u32_to_le_bytes,
    u128_from_le_bytes,
    u128_to_le_bytes,
    u32_from_le_bytes,
    u32_to_le_bytes,
};
use vstd::slice::{slice_subrange, slice_to_vec};
use vstd::utf8::{
    decode_utf8,
    decode_utf8_encode_utf8,
    encode_utf8,
    encode_utf8_decode_utf8,
    encode_utf8_valid_utf8,
    valid_utf8,
};

verus! {

/// The longest content that a block can hold.
pub const MAX_BLOCK_LEN: usize = 0xffff_ffff;

/// A block: the length of `content`, then `content`.
pub open spec fn block(content: Seq<u8>) -> Seq<u8>
    recommends
        content.len() <= MAX_BLOCK_LEN,
{
    spec_u32_to_le_bytes(content.len() as u32) + content
}

/// Reads one block from the front of `input`: its content and what follows
/// it, or `None` while the block is not complete.
pub open spec fn parse_block(input: Seq<u8>) -> Option<(Seq<u8>, Seq<u8>)> {
    if input.len() < 4 {
        None
    } else {
        let n = spec_u32_from_le_bytes(input.subrange(0, 4)) as int;
        if input.len() - 4 < n {
            None
        } else {
            Some((input.subrange(4, 4 + n), input.skip(4 + n)))
        }
    }
}

/// Reads one byte from the front of `input`.
pub open spec fn parse_byte(input: Seq<u8>) -> Option<(u8, Seq<u8>)> {
    if input.len() < 1 {
        None
    } else {
        Some((input[0], input.skip(1)))
    }
}

/// A flag: one byte, 0 or 1.
pub open spec fn flag(value: bool) -> Seq<u8> {
    seq![if value { 1u8 } else { 0u8 }]
}

/// Reads a flag; any byte but 0 and 1 is rejected.
pub open spec fn parse_flag(input: Seq<u8>) -> Option<(bool, Seq<u8>)> {
    match parse_byte(input) {
        Some((byte, rest)) => if byte == 0 {
            Some((false, rest))
        } else if byte == 1 {
            Some((true, rest))
        } else {
            None
        },
        None => None,
    }
}

/// A 128-bit identifier: sixteen little-endian bytes.
pub open spec fn ident(value: u128) -> Seq<u8> {
    spec_u128_to_le_bytes(value)
}

/// Reads a 128-bit identifier.
pub open spec fn parse_ident(input: Seq<u8>) -> Option<(u128, Seq<u8>)> {
    if input.len() < 16 {
        None
    } else {
        Some((spec_u128_from_le_bytes(input.subrange(0, 16)), input.skip(16)))
    }
}

/// Whether a text fits in a block.
pub open spec fn text_fits(value: Seq<char>) -> bool {
    encode_utf8(value).len() <= MAX_BLOCK_LEN
}

/// A text: its UTF-8 encoding as a block.
pub open spec fn text(value: Seq<char>) -> Seq<u8>
    recommends
        text_fits(value),
{
    block(encode_utf8(value))
}

/// Reads a text; a block that is not UTF-8 is rejected.
pub open spec fn parse_text(input: Seq<u8>) -> Option<(Seq<char>, Seq<u8>)> {
    match parse_block(input) {
        Some((content, rest)) => if valid_utf8(content) {
            Some((decode_utf8(content), rest))
        } else {
            None
        },
        None => None,
    }
}

/// Whether an optional text fits on the wire.
pub open spec fn optional_text_fits(value: Option<Seq<char>>) -> bool {
    value matches Some(t) ==> text_fits(t)
}

/// An optional text: a flag, then the text if there is one.
pub open spec fn optional_text(value: Option<Seq<char>>) -> Seq<u8>
    recommends
        optional_text_fits(value),
{
    match value {
        Some(t) => flag(true) + text(t),
        None => flag(false),
    }
}

/// Reads an optional text.
pub open spec fn parse_optional_text(input: Seq<u8>) -> Option<(Option<Seq<char>>, Seq<u8>)> {
    match parse_flag(input) {
        Some((present, rest)) => if present {
            match parse_text(rest) {
                Some((t, after)) => Some((Some(t), after)),
                None => None,
            }
        } else {
            Some((None, rest))
        },
        None => None,
    }
}

/// Parsing undoes [`block`], whatever follows the block.
pub proof fn lemma_parse_block(content: Seq<u8>, rest: Seq<u8>)
    requires
        content.len() <= MAX_BLOCK_LEN,
    ensures
        parse_block(block(content) + rest) == Some((content, rest)),
{
    lemma_auto_spec_u32_to_from_le_bytes();
    let input = block(content) + rest;
    let n = content.len() as int;
    assert(input.subrange(0, 4) =~= spec_u32_to_le_bytes(content.len() as u32));
    assert(input.subrange(4, 4 + n) =~= content);
    assert(input.skip(4 + n) =~= rest);
}

/// Parsing undoes [`flag`].
pub proof fn lemma_parse_flag(value: bool, rest: Seq<u8>)
    ensures
        parse_flag(flag(value) + rest) == Some((value, rest)),
{
}

/// Parsing undoes [`ident`].
pub proof fn lemma_parse_ident(value: u128, rest: Seq<u8>)
    ensures
        parse_ident(ident(value) + rest) == Some((value, rest)),
{
    lemma_auto_spec_u128_to_from_le_bytes();
    let input = ident(value) + rest;
    assert(input.subrange(0, 16) =~= ident(value));
}

/// Parsing undoes [`text`].
pub proof fn lemma_parse_text(value: Seq<char>, rest: Seq<u8>)
    requires
        text_fits(value),
    ensures
        parse_text(text(value) + rest) == Some((value, rest)),
{
    lemma_parse_block(encode_utf8(value), rest);
    encode_utf8_valid_utf8(value);
    encode_utf8_decode_utf8(value);
}

/// Parsing undoes [`optional_text`].
pub proof fn lemma_parse_optional_text(value: Option<Seq<char>>, rest: Seq<u8>)
    requires
        optional_text_fits(value),
    ensures
        parse_optional_text(optional_text(value) + rest) == Some((value, rest)),
{
    match value {
        Some(t) => {
            assert(optional_text(value) + rest =~= flag(true) + (text(t) + rest));
            lemma_parse_flag(true, text(t) + rest);
            lemma_parse_text(t, rest);
        },
        None => {
            lemma_parse_flag(false, rest);
        },
    }
}

/// Only a block parses as one: what [`parse_block`] accepts is the block of
/// the content it gives, followed by the rest it gives.
pub proof fn lemma_block_is_canonical(input: Seq<u8>)
    requires
        parse_block(input) is Some,
    ensures
        ({
            let (content, rest) = parse_block(input)->Some_0;
            content.len() <= MAX_BLOCK_LEN && input == block(content) + rest
        }),
{
    lemma_auto_spec_u32_to_from_le_bytes();
}

/// Only a flag parses as one.
pub proof fn lemma_flag_is_canonical(input: Seq<u8>)
    requires
        parse_flag(input) is Some,
    ensures
        ({
            let (value, rest) = parse_flag(input)->Some_0;
            input == flag(value) + rest
        }),
{
}

/// Only an identifier parses as one.
pub proof fn lemma_ident_is_canonical(input: Seq<u8>)
    requires
        parse_ident(input) is Some,
    ensures
        ({
            let (value, rest) = parse_ident(input)->Some_0;
            input == ident(value) + rest
        }),
{
    lemma_auto_spec_u128_to_from_le_bytes();
}

/// Only a text parses as one.
pub proof fn lemma_text_is_canonical(input: Seq<u8>)
    requires
        parse_text(input) is Some,
    ensures
        ({
            let (value, rest) = parse_text(input)->Some_0;
            text_fits(value) && input == text(value) + rest
        }),
{
    lemma_block_is_canonical(input);
    decode_utf8_encode_utf8(parse_block(input)->Some_0.0);
}

/// Only an optional text parses as one.
pub proof fn lemma_optional_text_is_canonical(input: Seq<u8>)
    requires
        parse_optional_text(input) is Some,
    ensures
        ({
            let (value, rest) = parse_optional_text(input)->Some_0;
            optional_text_fits(value) && input == optional_text(value) + rest
        }),
{
    lemma_flag_is_canonical(input);
    let (present, after) = parse_flag(input)->Some_0;
    if present {
        lemma_text_is_canonical(after);
    }
}

/// Appends `src` to `out`.
pub fn put_bytes(out: &mut Vec<u8>, src: &[u8])
    ensures
        final(out)@ == old(out)@ + src@,
{
    let mut i: usize = 0;
    while i < src.len()
        invariant
            i <= src@.len(),
            out@ == old(out)@ + src@.subrange(0, i as int),
        decreases src@.len() - i,
    {
        out.push(src[i]);
        i += 1;
    }
}

/// Appends the block of `content` to `out`.
pub fn put_block(out: &mut Vec<u8>, content: &[u8])
    requires
        content@.len() <= MAX_BLOCK_LEN,
    ensures
        final(out)@ == old(out)@ + block(content@),
{
    let prefix = u32_to_le_bytes(content.len() as u32);
    put_bytes(out, prefix.as_slice());
    put_bytes(out, content);
}

/// Appends a flag to `out`.
pub fn put_flag(out: &mut Vec<u8>, value: bool)
    ensures
        final(out)@ == old(out)@ + flag(value),
{
    out.push(if value { 1u8 } else { 0u8 });
}

/// Appends a 128-bit identifier to `out`.
pub fn put_ident(out: &mut Vec<u8>, value: u128)
    ensures
        final(out)@ == old(out)@ + ident(value),
{
    let bytes = u128_to_le_bytes(value);
    put_bytes(out, bytes.as_slice());
}

/// Whether a text fits in a block, decided on its bytes.
pub fn fits(value: &str) -> (r: bool)
    ensures
        r == text_fits(value@),
{
    value.as_bytes().len() <= MAX_BLOCK_LEN
}

/// Appends a text to `out`.
pub fn put_text(out: &mut Vec<u8>, value: &str)
    requires
        text_fits(value@),
    ensures
        final(out)@ == old(out)@ + text(value@),
{
    put_block(out, value.as_bytes());
}

/// Appends an optional text to `out`.
pub fn put_optional_text(out: &mut Vec<u8>, value: &Option<String>)
    requires
        value matches Some(t) ==> text_fits(t@),
    ensures
        final(out)@ == old(out)@ + optional_text(
            match *value {
                Some(t) => Some(t@),
                None => None,
            },
        ),
{
    match value {
        Some(t) => {
            put_flag(out, true);
            put_text(out, t.as_str());
        },
        None => {
            put_flag(out, false);
        },
    }
}

/// Reads a block at `pos`: its content and the position after it.
pub fn read_block<'a>(data: &'a [u8], pos: usize) -> (r: Option<(&'a [u8], usize)>)
    requires
        pos <= data@.len(),
    ensures
        match parse_block(data@.skip(pos as int)) {
            Some((content, rest)) => r matches Some((got, next)) && got@ == content && pos <= next
                <= data@.len() && data@.skip(next as int) == rest,
            None => r is None,
        },
{
    if data.len() - pos < 4 {
        return None;
    }
    let prefix = slice_subrange(data, pos, pos + 4);
    assert(prefix@ =~= data@.skip(pos as int).subrange(0, 4));
    let n: usize = u32_from_le_bytes(prefix) as usize;
    if data.len() - pos - 4 < n {
        return None;
    }
    let content = slice_subrange(data, pos + 4, pos + 4 + n);
    Some((content, pos + 4 + n))
}

/// Reads a byte at `pos`.
pub fn read_byte(data: &[u8], pos: usize) -> (r: Option<(u8, usize)>)
    requires
        pos <= data@.len(),
    ensures
        match parse_byte(data@.skip(pos as int)) {
            Some((byte, rest)) => r matches Some((got, next)) && got == byte && pos <= next
                <= data@.len() && data@.skip(next as int) == rest,
            None => r is None,
        },
{
    if data.len() - pos < 1 {
        return None;
    }
    Some((data[pos], pos + 1))
}

/// Reads a flag at `pos`.
pub fn read_flag(data: &[u8], pos: usize) -> (r: Option<(bool, usize)>)
    requires
        pos <= data@.len(),
    ensures
        match parse_flag(data@.skip(pos as int)) {
            Some((value, rest)) => r matches Some((got, next)) && got == value && pos <= next
                <= data@.len() && data@.skip(next as int) == rest,
            None => r is None,
        },
{
    match read_byte(data, pos) {
        Some((byte, next)) => if byte == 0 {
            Some((false, next))
        } else if byte == 1 {
            Some((true, next))
        } else {
            None
        },
        None => None,
    }
}

/// Reads a 128-bit identifier at `pos`.
pub fn read_ident(data: &[u8], pos: usize) -> (r: Option<(u128, usize)>)
    requires
        pos <= data@.len(),
    ensures
        match parse_ident(data@.skip(pos as int)) {
            Some((value, rest)) => r matches Some((got, next)) && got == value && pos <= next
                <= data@.len() && data@.skip(next as int) == rest,
            None => r is None,
        },
{
    if data.len() - pos < 16 {
        return None;
    }
    let bytes = slice_subrange(data, pos, pos + 16);
    assert(bytes@ =~= data@.skip(pos as int).subrange(0, 16));
    Some((u128_from_le_bytes(bytes), pos + 16))
}

/// Calls `String::from_utf8`, which accepts exactly the byte strings that
/// are valid UTF-8 and then gives the text that these bytes encode.
#[verifier::external_body]
fn text_from_utf8(bytes: Vec<u8>) -> (r: Option<String>)
    ensures
        r is Some <==> valid_utf8(bytes@),
        r matches Some(t) ==> encode_utf8(t@) == bytes@,
{
    match String::from_utf8(bytes) {
        Ok(t) => Some(t),
        Err(_) => None,
    }
}

/// Reads a text at `pos`.
pub fn read_text(data: &[u8], pos: usize) -> (r: Option<(String, usize)>)
    requires
        pos <= data@.len(),
    ensures
        match parse_text(data@.skip(pos as int)) {
            Some((value, rest)) => r matches Some((got, next)) && got@ == value && pos <= next
                <= data@.len() && data@.skip(next as int) == rest,
            None => r is None,
        },
{
    match read_block(data, pos) {
        Some((content, next)) => match text_from_utf8(slice_to_vec(content)) {
            Some(t) => {
                proof {
                    encode_utf8_decode_utf8(t@);
                }
                Some((t, next))
            },
            None => None,
        },
        None => None,
    }
}

/// Reads an optional text at `pos`.
pub fn read_optional_text(data: &[u8], pos: usize) -> (r: Option<(Option<String>, usize)>)
    requires
        pos <= data@.len(),
    ensures
        match parse_optional_text(data@.skip(pos as int)) {
            Some((value, rest)) => r matches Some((got, next)) && (match got {
                Some(t) => Some(t@),
                None => None,
            }) == value && pos <= next <= data@.len() && data@.skip(next as int) == rest,
            None => r is None,
        },
{
    match read_flag(data, pos) {
        Some((present, next)) => if present {
            match read_text(data, next) {
                Some((t, after)) => Some((Some(t), after)),
                None => None,
            }
        } else {
            Some((None, next))
        },
        None => None,
    }
}

} // verus!
