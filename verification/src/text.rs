//! Text at the boundary: C strings coming in, C strings going out.
//!
//! A C string argument is modelled by the bytes before its terminator, or by
//! `None` for a null pointer.
use crate::wrapper::Error;
use vstd::prelude::*;
use vstd::slice::slice_to_vec;
use vstd::string::StringSliceAdditionalSpecFns;
use vstd::utf8::*;

verus! {

/// `core::str::Utf8Error`, the reason why bytes are no text: opaque here.
#[verifier::external_type_specification]
#[verifier::external_body]
pub struct ExUtf8Error(core::str::Utf8Error);

/// `core::str::from_utf8`, believed to accept exactly the well-formed UTF-8
/// byte strings and to give back the text that those bytes encode.
#[verifier::external_body]
fn from_utf8<'a>(bytes: &'a [u8]) -> (r: Result<&'a str, core::str::Utf8Error>)
    ensures
        r is Ok <==> valid_utf8(bytes@),
        r matches Ok(text) ==> text@ == decode_utf8(bytes@),
{
    core::str::from_utf8(bytes)
}

/// The text that a C string argument carries: none for a null pointer and
/// none for bytes that are not well-formed UTF-8.
pub open spec fn c_text(p: Option<&[u8]>) -> Option<Seq<char>> {
    match p {
        Some(bytes) => if valid_utf8(bytes@) {
            Some(decode_utf8(bytes@))
        } else {
            None
        },
        None => None,
    }
}

/// Decodes a C string argument, rejecting a null pointer and ill-formed text.
pub fn cstr_to_str<'a>(p: Option<&'a [u8]>) -> (r: Result<&'a str, Error>)
    ensures
        match c_text(p) {
            Some(text) => r matches Ok(s) && s@ == text,
            None => r == Err::<&str, Error>(Error::InvalidArgument),
        },
{
    match p {
        None => Err(Error::InvalidArgument),
        Some(bytes) => match from_utf8(bytes) {
            Ok(text) => Ok(text),
            Err(_) => Err(Error::InvalidArgument),
        },
    }
}

proof fn lemma_encoded_scalar_nul(scalar: u32)
    requires
        is_scalar(scalar),
    ensures
        encode_scalar(scalar).contains(0u8) <==> scalar == 0,
{
    let bytes = encode_scalar(scalar);
    if scalar <= 0x7F {
        assert((scalar & 0x7F) as u8 == 0 <==> scalar == 0) by (bit_vector)
            requires
                scalar <= 0x7F,
        ;
    }
    assert(0xC0u8 | ((scalar >> 6) & 0x1F) as u8 != 0) by (bit_vector);
    assert(0xE0u8 | ((scalar >> 12) & 0x0F) as u8 != 0) by (bit_vector);
    assert(0xF0u8 | ((scalar >> 18) & 0x7) as u8 != 0) by (bit_vector);
    assert(0x80u8 | (scalar & 0x3F) as u8 != 0) by (bit_vector);
    assert(0x80u8 | ((scalar >> 6) & 0x3F) as u8 != 0) by (bit_vector);
    assert(0x80u8 | ((scalar >> 12) & 0x3F) as u8 != 0) by (bit_vector);
    if scalar == 0 {
        assert(bytes[0] == 0u8);
    } else {
        assert forall|i: int| 0 <= i < bytes.len() implies bytes[i] != 0u8 by {}
    }
}

/// A text holds the NUL character exactly where its UTF-8 encoding holds a
/// zero byte.
pub proof fn lemma_encoded_nul(text: Seq<char>)
    ensures
        encode_utf8(text).contains(0u8) <==> text.contains('\0'),
    decreases text.len(),
{
    if text.len() > 0 {
        let head = encode_scalar(text[0] as u32);
        let tail = encode_utf8(text.drop_first());
        lemma_encoded_nul(text.drop_first());
        char_is_scalar(text[0]);
        lemma_encoded_scalar_nul(text[0] as u32);
        char_u32_cast(text[0], text[0] as u32);
        assert(text[0] as u32 == 0 <==> text[0] == '\0');
        if text.contains('\0') {
            let i = choose|i: int| 0 <= i < text.len() && text[i] == '\0';
            if i == 0 {
                let k = choose|k: int| 0 <= k < head.len() && head[k] == 0u8;
                assert((head + tail)[k] == 0u8);
            } else {
                assert(text.drop_first()[i - 1] == '\0');
                let k = choose|k: int| 0 <= k < tail.len() && tail[k] == 0u8;
                assert((head + tail)[head.len() + k] == 0u8);
            }
        }
        if (head + tail).contains(0u8) {
            let k = choose|k: int| 0 <= k < (head + tail).len() && (head + tail)[k] == 0u8;
            if k < head.len() {
                assert(head[k] == 0u8);
                assert(text[0] == '\0');
            } else {
                assert(tail[k - head.len()] == 0u8);
                let i = choose|i: int|
                    0 <= i < text.drop_first().len() && text.drop_first()[i] == '\0';
                assert(text[i + 1] == '\0');
            }
        }
    }
}

/// The bytes of `text` as an owned C string, terminator included. There is
/// none for a text that holds the NUL character, which would cut it short.
pub fn c_string(text: &str) -> (r: Option<Vec<u8>>)
    ensures
        r is Some <==> !text@.contains('\0'),
        r matches Some(bytes) ==> bytes@ == encode_utf8(text@).push(0u8),
{
    let bytes = text.as_bytes();
    let mut i: usize = 0;
    while i < bytes.len()
        invariant
            i <= bytes@.len(),
            forall|k: int| 0 <= k < i ==> bytes@[k] != 0u8,
            bytes@ == encode_utf8(text@),
        decreases bytes@.len() - i,
    {
        if bytes[i] == 0 {
            proof {
                lemma_encoded_nul(text@);
                assert(bytes@[i as int] == 0u8);
            }
            return None;
        }
        i = i + 1;
    }
    proof {
        lemma_encoded_nul(text@);
    }
    let mut owned = slice_to_vec(bytes);
    owned.push(0u8);
    Some(owned)
}

} // verus!
