//! Text out of the buffers of the interface.

use vstd::prelude::*;
use vstd::utf8::{decode_utf8, valid_utf8};

verus! {

/// Whether `length` is the length of the text in a buffer that holds a
/// zero-terminated string: no byte before it is zero, and it is either the
/// position of a zero byte or the end of the buffer.
pub open spec fn is_content_length(buffer: Seq<u8>, length: int) -> bool {
    &&& 0 <= length <= buffer.len()
    &&& forall|i: int| 0 <= i < length ==> buffer[i] != 0
    &&& length < buffer.len() ==> buffer[length] == 0
}

/// The length of the text in a buffer: the position of its first zero byte,
/// or its whole length where it holds none.
pub open spec fn content_length(buffer: Seq<u8>) -> int {
    choose|length: int| is_content_length(buffer, length)
}

/// The text in a buffer: the bytes before its first zero byte.
pub open spec fn content(buffer: Seq<u8>) -> Seq<u8> {
    buffer.take(content_length(buffer))
}

/// The string that a name buffer of the interface stands for.
///
/// No buffer stands for the empty string, and so does a buffer whose text is
/// not UTF-8. Any other buffer stands for the characters that its text
/// encodes.
pub open spec fn spec_decode_name(raw: Option<Seq<u8>>) -> Seq<char> {
    match raw {
        None => Seq::empty(),
        Some(buffer) => if valid_utf8(content(buffer)) {
            decode_utf8(content(buffer))
        } else {
            Seq::empty()
        },
    }
}

/// A buffer has one content length, and only one.
pub proof fn lemma_content_length_is_unique(buffer: Seq<u8>, length: int)
    requires
        is_content_length(buffer, length),
    ensures
        content_length(buffer) == length,
        content(buffer) == buffer.take(length),
{
    let chosen = content_length(buffer);
    assert(is_content_length(buffer, chosen));
    if chosen < length {
        assert(buffer[chosen] == 0);
    } else if length < chosen {
        assert(buffer[length] == 0);
    }
}

/// Copies the text out of a buffer: the bytes before the first zero byte.
pub fn text_of(buffer: &Vec<u8>) -> (text: Vec<u8>)
    ensures
        text@ == content(buffer@),
{
    let mut text: Vec<u8> = Vec::new();
    let mut position: usize = 0;
    while position < buffer.len() && buffer[position] != 0
        invariant
            position <= buffer.len(),
            text@ == buffer@.take(position as int),
            forall|i: int| 0 <= i < position ==> buffer[i] != 0,
        decreases buffer.len() - position,
    {
        text.push(buffer[position]);
        position += 1;
        assert(text@ =~= buffer@.take(position as int));
    }
    proof {
        lemma_content_length_is_unique(buffer@, position as int);
    }
    text
}

/// Decodes UTF-8 with `String::from_utf8`, keeping the string and dropping
/// the description of a failure.
///
/// Trusted: the standard library documents that the call succeeds exactly on
/// well-formed UTF-8 and that the string then holds the given bytes, so its
/// characters are those that the bytes encode.
#[verifier::external_body]
fn string_from_utf8(bytes: Vec<u8>) -> (decoded: Option<String>)
    ensures
        valid_utf8(bytes@) ==> decoded is Some && decoded->0@ == decode_utf8(bytes@),
        !valid_utf8(bytes@) ==> decoded is None,
{
    String::from_utf8(bytes).ok()
}

/// Turns a name buffer of the interface into an owned string.
///
/// A null pointer, which arrives here as no buffer, gives the empty string,
/// and so does text that is not UTF-8.
pub fn decode_name(raw: &Option<Vec<u8>>) -> (text: String)
    ensures
        text@ == spec_decode_name(
            match *raw {
                Some(buffer) => Some(buffer@),
                None => None,
            },
        ),
{
    match raw {
        None => String::new(),
        Some(buffer) => {
            match string_from_utf8(text_of(buffer)) {
                Some(decoded) => decoded,
                None => String::new(),
            }
        },
    }
}

} // verus!
