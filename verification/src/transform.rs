//! Decoding, uppercasing and writing out a text.

use vstd::prelude::*;
use vstd::utf8::{decode_utf8, encode_utf8, encode_utf8_decode_utf8, valid_utf8};

use crate::text::uppercase_of;

verus! {

/// Why a text could not be uppercased.
#[derive(Clone, Copy, Debug, PartialEq, Eq, Structural)]
pub enum UpcaseError {
    /// The input bytes are not well-formed UTF-8.
    InvalidText,
}

/// The bytes that uppercasing writes for the input `bytes`: the UTF-8 encoding
/// of the upper case form of the text that `bytes` encode.
pub open spec fn upcased(bytes: Seq<u8>) -> Seq<u8>
    recommends
        valid_utf8(bytes),
{
    encode_utf8(uppercase_of(decode_utf8(bytes)))
}

/// Reads `input` as UTF-8 text.
///
/// Succeeds exactly when `input` is well-formed UTF-8, and then returns the
/// text that it encodes.
pub fn decode(input: &[u8]) -> (result: Result<&str, UpcaseError>)
    ensures
        result is Ok <==> valid_utf8(input@),
        result matches Ok(text) ==> text@ == decode_utf8(input@),
        result matches Err(e) ==> e == UpcaseError::InvalidText,
{
    match core::str::from_utf8(input) {
        Ok(text) => {
            proof {
                encode_utf8_decode_utf8(text@);
            }
            Ok(text)
        },
        Err(_) => Err(UpcaseError::InvalidText),
    }
}

/// Appends the UTF-8 encoding of `text` to `output`.
pub fn write_text(text: &str, output: &mut Vec<u8>)
    ensures
        final(output)@ == old(output)@ + encode_utf8(text@),
{
    output.extend_from_slice(text.as_bytes());
    assert(final(output)@ =~= old(output)@ + encode_utf8(text@));
}

/// Uppercases the text in `input` and appends the result to `output`.
///
/// The whole of `input` is decoded before anything is written. If it is
/// well-formed UTF-8, the bytes of its upper case form are appended to `output`
/// in one piece; otherwise the call fails and `output` is left as it was.
pub fn upcase(input: &[u8], output: &mut Vec<u8>) -> (result: Result<(), UpcaseError>)
    ensures
        result is Ok <==> valid_utf8(input@),
        result is Ok ==> final(output)@ == old(output)@ + upcased(input@),
        result is Err ==> result == Err::<(), UpcaseError>(UpcaseError::InvalidText)
            && final(output)@ == old(output)@,
{
    let text = match decode(input) {
        Ok(text) => text,
        Err(e) => {
            return Err(e);
        },
    };
    let upper = text.to_uppercase();
    write_text(upper.as_str(), output);
    Ok(())
}

} // verus!
