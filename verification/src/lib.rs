//! Uppercasing of UTF-8 text held in byte buffers.
//!
//! The entry point is [`upcase`]: it takes the bytes of a text, decodes them as
//! UTF-8, maps the text to upper case and appends the bytes of the result to an
//! output buffer. Bytes that are not well-formed UTF-8 are rejected and leave
//! the output untouched.

pub mod laws;
pub mod text;
pub mod transform;

pub use laws::is_uppercase;
pub use text::uppercase_of;
pub use transform::{decode, upcase, upcased, write_text, UpcaseError};
