//! Java strings at the JNI boundary: Java's modified UTF-8, as the
//! `cesu8` crate encodes and decodes it.
use vstd::prelude::*;

verus! {

#[verifier::external_type_specification]
#[verifier::external_body]
pub struct ExCesu8DecodingError(cesu8::Cesu8DecodingError);

/// The three bytes that modified UTF-8 writes for a 16-bit code unit in
/// `0x800..=0xFFFF`, surrogates included: the UTF-8 layout
/// `1110xxxx 10xxxxxx 10xxxxxx`.
pub open spec fn three_byte_unit(unit: u32) -> Seq<u8> {
    seq![
        vstd::utf8::leading_byte_width_3(unit),
        vstd::utf8::second_last_continuation_byte(unit),
        vstd::utf8::last_continuation_byte(unit),
    ]
}

/// Java's modified UTF-8 encoding of one character: UTF-8, except that NUL
/// takes the two bytes `C0 80` and a character outside the basic
/// multilingual plane is written as its UTF-16 surrogate pair, each
/// surrogate in three bytes.
pub open spec fn java_cesu8_char(c: char) -> Seq<u8> {
    let v = c as u32;
    if v == 0 {
        seq![0xC0u8, 0x80u8]
    } else if v < 0x10000 {
        vstd::utf8::encode_scalar(v)
    } else {
        let w = (v - 0x10000) as u32;
        three_byte_unit(0xD800u32 | (w >> 10u32)) + three_byte_unit(0xDC00u32 | (w & 0x3FFu32))
    }
}

/// Java's modified UTF-8 encoding of `text`, character by character.
pub open spec fn java_cesu8(text: Seq<char>) -> Seq<u8>
    decreases text.len(),
{
    if text.len() == 0 {
        Seq::empty()
    } else {
        java_cesu8_char(text[0]) + java_cesu8(text.drop_first())
    }
}

/// Whether modified UTF-8 writes `text` exactly as UTF-8 does: it holds no
/// NUL character and no character outside the basic multilingual plane.
pub open spec fn cesu8_is_utf8(text: Seq<char>) -> bool {
    forall|i: int| 0 <= i < text.len() ==> 0 < (#[trigger] text[i] as u32) < 0x10000
}

/// `cesu8::to_java_cesu8`: the modified UTF-8 encoding of `text`. Its
/// source hands back the string's own UTF-8 bytes when the string holds
/// neither NUL nor a character outside the basic multilingual plane, and
/// otherwise writes NUL as `C0 80`, passes characters of up to three UTF-8
/// bytes through, and writes each four-byte character as its two
/// surrogates of three bytes each. The bytes it returns decode (with `cesu8::from_java_cesu8`) to the string
/// again: they are the string's UTF-8 bytes, which the decoder takes as they
/// are, or they hold the two-byte NUL or surrogate pairs, which are not
/// UTF-8 and which the decoder turns back into the characters written.
#[verifier::external_body]
fn to_java_cesu8(text: &str) -> (r: Vec<u8>)
    ensures
        r@ == java_cesu8(text@),
        java_cesu8_decode(r@) == Some(text@),
{
    cesu8::to_java_cesu8(text).into_owned()
}

/// Where `text` holds neither NUL nor a character outside the basic
/// multilingual plane, its modified UTF-8 is its UTF-8.
pub proof fn lemma_plain_text_is_utf8(text: Seq<char>)
    requires
        cesu8_is_utf8(text),
    ensures
        java_cesu8(text) == vstd::utf8::encode_utf8(text),
    decreases text.len(),
{
    if text.len() > 0 {
        let rest = text.drop_first();
        assert(cesu8_is_utf8(rest)) by {
            assert forall|i: int| 0 <= i < rest.len() implies 0 < (#[trigger] rest[i] as u32) < 0x10000 by {
                assert(rest[i] == text[i + 1]);
            }
        }
        lemma_plain_text_is_utf8(rest);
        assert(0 < (text[0] as u32) < 0x10000);
    }
}

/// A string as JNI takes it: modified UTF-8 followed by a zero byte.
pub open spec fn jni_string(text: Seq<char>) -> Seq<u8> {
    java_cesu8(text).push(0u8)
}

/// Encodes a string for JNI: modified UTF-8 with a terminating zero byte.
/// A string with neither NUL nor a character outside the basic
/// multilingual plane becomes its own UTF-8 bytes and the zero byte. The
/// bytes before the zero byte decode to the string again.
pub fn to_jni_string(text: &str) -> (r: Vec<u8>)
    ensures
        r@ == jni_string(text@),
        java_cesu8_decode(r@.drop_last()) == Some(text@),
        cesu8_is_utf8(text@) ==> r@ == vstd::utf8::encode_utf8(text@).push(0u8),
{
    let mut r = to_java_cesu8(text);
    proof {
        if cesu8_is_utf8(text@) {
            lemma_plain_text_is_utf8(text@);
        }
    }
    let ghost encoded = r@;
    r.push(0u8);
    assert(r@.drop_last() =~= encoded);
    r
}

/// The string that `cesu8::from_java_cesu8` decodes `bytes` to, or `None`
/// where it refuses them.
pub uninterp spec fn java_cesu8_decode(bytes: Seq<u8>) -> Option<Seq<char>>;

/// `cesu8::from_java_cesu8`: decodes Java's modified UTF-8. Its source
/// accepts any valid UTF-8 as it is (decoding it as UTF-8), and otherwise
/// decodes the two-byte NUL and the six-byte surrogate pairs that the
/// encoder writes.
#[verifier::external_body]
fn from_java_cesu8(bytes: &[u8]) -> (r: Result<String, cesu8::Cesu8DecodingError>)
    ensures
        r is Ok <==> java_cesu8_decode(bytes@) is Some,
        r matches Ok(s) ==> java_cesu8_decode(bytes@) == Some(s@),
        vstd::utf8::valid_utf8(bytes@) ==> r is Ok,
        r matches Ok(s) ==> (vstd::utf8::valid_utf8(bytes@) ==> s@ == vstd::utf8::decode_utf8(bytes@)),
{
    match cesu8::from_java_cesu8(bytes) {
        Ok(s) => Ok(s.into_owned()),
        Err(e) => Err(e),
    }
}

/// Decodes a Java string handed over by JNI (its modified UTF-8 bytes, the
/// terminating zero byte left off), or `None` where the bytes are not
/// modified UTF-8. Valid UTF-8 is taken as the text it encodes.
pub fn from_jni_string(bytes: &[u8]) -> (r: Option<String>)
    ensures
        r is Some <==> java_cesu8_decode(bytes@) is Some,
        r matches Some(s) ==> java_cesu8_decode(bytes@) == Some(s@),
        vstd::utf8::valid_utf8(bytes@) ==> (r matches Some(s) && s@ == vstd::utf8::decode_utf8(bytes@)),
{
    match from_java_cesu8(bytes) {
        Ok(s) => Some(s),
        Err(_) => None,
    }
}

} // verus!
