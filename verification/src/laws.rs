//! Properties of uppercasing that hold for every input.
//!
//! They are stated over [`upcased`], the bytes that [`upcase`](crate::upcase)
//! appends on success, and over [`uppercase_of`], the mapping on texts.

use vstd::prelude::*;
use vstd::utf8::{
    decode_utf8,
    decode_utf8_encode_utf8,
    encode_utf8_decode_utf8,
    encode_utf8_valid_utf8,
    valid_utf8,
};

use crate::text::uppercase_of;
use crate::transform::upcased;

verus! {

/// A text is in upper case when the upper case mapping leaves it as it is.
pub open spec fn is_uppercase(text: Seq<char>) -> bool {
    uppercase_of(text) == text
}

/// What uppercasing writes is well-formed UTF-8 again, and it encodes the upper
/// case form of the input text. So the output of a successful call is always
/// accepted as the input of another.
pub proof fn lemma_upcased_is_text(bytes: Seq<u8>)
    ensures
        valid_utf8(upcased(bytes)),
        decode_utf8(upcased(bytes)) == uppercase_of(decode_utf8(bytes)),
{
    let upper = uppercase_of(decode_utf8(bytes));
    encode_utf8_valid_utf8(upper);
    encode_utf8_decode_utf8(upper);
}

/// Uppercasing leaves a well-formed input unchanged exactly when its text is in
/// upper case already.
pub proof fn lemma_uppercase_input_unchanged(bytes: Seq<u8>)
    requires
        valid_utf8(bytes),
    ensures
        upcased(bytes) == bytes <==> is_uppercase(decode_utf8(bytes)),
{
    let text = decode_utf8(bytes);
    decode_utf8_encode_utf8(bytes);
    encode_utf8_decode_utf8(text);
    encode_utf8_decode_utf8(uppercase_of(text));
}

/// Uppercasing the output of uppercasing gives that output again exactly when
/// the upper case form of the input text is in upper case.
///
/// Whether the mapping sends every text to one in upper case is a matter of
/// the Unicode tables and is not settled here.
pub proof fn lemma_upcase_twice(bytes: Seq<u8>)
    ensures
        upcased(upcased(bytes)) == upcased(bytes) <==> is_uppercase(
            uppercase_of(decode_utf8(bytes)),
        ),
{
    lemma_upcased_is_text(bytes);
    lemma_uppercase_input_unchanged(upcased(bytes));
}

} // verus!
