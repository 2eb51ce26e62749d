//! The two operations on text that the standard library carries out: checking
//! that bytes are well-formed UTF-8, and the Unicode upper case mapping.
//!
//! Nothing in this module is proved. Each item states what the rest of the
//! crate takes for granted about the standard library.

use vstd::prelude::*;
use vstd::string::StringSliceAdditionalSpecFns;
use vstd::utf8::valid_utf8;

verus! {

/// The upper case form of a text: what `str::to_uppercase` returns for it.
///
/// The mapping is the unconditional, language-independent one of Unicode, as
/// the tables of the standard library in use have it, taken over the text as a
/// whole: a character may map to several characters, so the result can be
/// longer than the argument. No statement is made here about its value on any
/// particular text.
pub uninterp spec fn uppercase_of(text: Seq<char>) -> Seq<char>;

/// `str::to_uppercase` returns the upper case form of the text it is called on.
/// The result depends on the characters of the text alone.
pub assume_specification[ str::to_uppercase ](text: &str) -> (upper: String)
    ensures
        upper@ == uppercase_of(text@),
;

/// The error of `core::str::from_utf8`. Its contents are not looked at.
#[verifier::external_type_specification]
#[verifier::external_body]
pub struct ExUtf8Error(core::str::Utf8Error);

/// `core::str::from_utf8` succeeds exactly on well-formed UTF-8, and the string
/// slice it then returns is made of the very bytes it was given.
pub assume_specification[ core::str::from_utf8 ](bytes: &[u8]) -> (text: Result<
    &str,
    core::str::Utf8Error,
>)
    ensures
        text is Ok <==> valid_utf8(bytes@),
        text matches Ok(t) ==> t.spec_bytes() == bytes@,
;

} // verus!
