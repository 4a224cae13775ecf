//! Bytes and text: UTF-8 through the standard library, and the small pieces
//! from which messages are put together.

use crate::error::Utf8Failure;
use crate::number::lemma_render_int_is_ascii;
use crate::number::push_digits;
use crate::number::push_int;
use crate::number::spec_render_int;
use vstd::prelude::*;
use vstd::string::StringExecFns;
use vstd::utf8::*;

verus! {

/// True when every byte is below 128.
pub open spec fn is_ascii_bytes(bytes: Seq<u8>) -> bool {
    forall|i: int| 0 <= i < bytes.len() ==> #[trigger] bytes[i] < 128
}

/// The characters whose code points are the given bytes.
pub open spec fn ascii_chars(bytes: Seq<u8>) -> Seq<char> {
    Seq::new(bytes.len(), |i: int| bytes[i] as char)
}

/// ASCII bytes are UTF-8, one character for each byte.
pub proof fn lemma_ascii_is_utf8(bytes: Seq<u8>)
    requires
        is_ascii_bytes(bytes),
    ensures
        valid_utf8(bytes),
        decode_utf8(bytes) == ascii_chars(bytes),
        encode_utf8(ascii_chars(bytes)) == bytes,
{
    let chars = ascii_chars(bytes);
    assert(is_ascii_chars(chars)) by {
        assert forall|i: int| 0 <= i < chars.len() implies '\0' <= #[trigger] chars[i]
            <= '\u{7f}' by {
            assert(bytes[i] < 128);
        }
    }
    is_ascii_chars_encode_utf8(chars);
    assert(encode_utf8(chars) =~= bytes) by {
        assert forall|i: int| 0 <= i < bytes.len() implies encode_utf8(chars)[i] == bytes[i] by {
            assert(bytes[i] < 128);
            assert(chars[i] as u8 == encode_utf8(chars)[i]);
        }
    }
    encode_utf8_valid_utf8(chars);
    encode_utf8_decode_utf8(chars);
}

/// What the error of `core::str::from_utf8` tells of bytes that are not
/// UTF-8.
pub uninterp spec fn utf8_failure_of(bytes: Seq<u8>) -> Utf8Failure;

/// True when the first `k` bytes are UTF-8 and no longer run from the front
/// is.
pub open spec fn is_longest_utf8_prefix(bytes: Seq<u8>, k: int) -> bool {
    &&& 0 <= k <= bytes.len()
    &&& valid_utf8(bytes.take(k))
    &&& forall|j: int| k < j <= bytes.len() ==> !valid_utf8(#[trigger] bytes.take(j))
}

/// `core::str::from_utf8`: accepts exactly the byte strings that are UTF-8,
/// and the text it returns has those bytes. Of other bytes its error tells
/// how far they are UTF-8, which is the longest such run, and how long the
/// malformed sequence behind it is.
#[verifier::external_body]
pub(crate) fn str_from_utf8<'a>(bytes: &'a [u8]) -> (r: Result<&'a str, Utf8Failure>)
    ensures
        r is Ok <==> valid_utf8(bytes@),
        r is Ok ==> encode_utf8(r->Ok_0@) == bytes@,
        r is Err ==> r->Err_0 == utf8_failure_of(bytes@),
        r is Err ==> is_longest_utf8_prefix(bytes@, r->Err_0.valid_up_to as int),
{
    match core::str::from_utf8(bytes) {
        Ok(text) => Ok(text),
        Err(e) => Err(Utf8Failure { valid_up_to: e.valid_up_to(), error_len: e.error_len() }),
    }
}

/// What `String::from_utf8_lossy` makes of bytes that are not UTF-8.
pub uninterp spec fn utf8_lossy(bytes: Seq<u8>) -> Seq<char>;

/// `String::from_utf8_lossy`: the text of the bytes, every malformed part
/// replaced as std documents.
#[verifier::external_body]
pub(crate) fn string_from_utf8_lossy(bytes: &[u8]) -> (r: String)
    ensures
        r@ == utf8_lossy(bytes@),
{
    String::from_utf8_lossy(bytes).into_owned()
}

/// The characters that a byte string stands for: its UTF-8 decoding where it
/// has one.
pub open spec fn text_of(bytes: Seq<u8>) -> Seq<char> {
    if valid_utf8(bytes) {
        decode_utf8(bytes)
    } else {
        utf8_lossy(bytes)
    }
}

/// The text of a byte string, malformed parts replaced.
pub fn bytes_to_string(bytes: &[u8]) -> (r: String)
    ensures
        r@ == text_of(bytes@),
{
    match str_from_utf8(bytes) {
        Ok(s) => {
            proof {
                encode_utf8_decode_utf8(s@);
            }
            s.to_owned()
        },
        Err(_) => string_from_utf8_lossy(bytes),
    }
}

/// `String::push`: appends one character.
#[verifier::external_body]
pub(crate) fn string_push(text: &mut String, c: char)
    ensures
        final(text)@ == old(text)@.push(c),
{
    text.push(c)
}

/// The text of ASCII bytes.
pub fn ascii_to_string(bytes: &[u8]) -> (r: String)
    requires
        is_ascii_bytes(bytes@),
    ensures
        r@ == ascii_chars(bytes@),
{
    proof {
        lemma_ascii_is_utf8(bytes@);
    }
    bytes_to_string(bytes)
}

/// A copy of the bytes.
pub fn copy_bytes(data: &[u8]) -> (r: Vec<u8>)
    ensures
        r@ == data@,
{
    let mut bytes: Vec<u8> = Vec::new();
    bytes.extend_from_slice(data);
    bytes
}

/// The text after a prefix of a message, as one string.
pub fn message_with(prefix: &str, detail: &str) -> (r: String)
    ensures
        r@ == prefix@ + detail@,
{
    prefix.to_owned().concat(detail)
}

/// The decimal text of `n`.
pub fn int_to_string(n: i64) -> (r: String)
    ensures
        r@ == ascii_chars(spec_render_int(n as int)),
{
    let mut buffer: Vec<u8> = Vec::new();
    push_int(&mut buffer, n);
    proof {
        lemma_render_int_is_ascii(n as int);
        assert(buffer@ =~= spec_render_int(n as int));
    }
    ascii_to_string(buffer.as_slice())
}

/// The decimal text of `n`.
pub fn uint_to_string(n: u64) -> (r: String)
    ensures
        r@ == ascii_chars(spec_render_int(n as int)),
{
    let mut buffer: Vec<u8> = Vec::new();
    push_digits(&mut buffer, n);
    proof {
        lemma_render_int_is_ascii(n as int);
        assert(buffer@ =~= spec_render_int(n as int));
    }
    ascii_to_string(buffer.as_slice())
}

} // verus!
