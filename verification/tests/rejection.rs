use upcase::{decode, upcase, write_text, UpcaseError};

fn assert_rejected(input: &[u8]) {
    let mut output: Vec<u8> = Vec::new();
    assert_eq!(upcase(input, &mut output), Err(UpcaseError::InvalidText));
    assert!(output.is_empty());
}

#[test]
fn rejects_lone_continuation_byte() {
    assert_rejected(&[0x80]);
}

#[test]
fn rejects_byte_that_never_occurs_in_utf8() {
    assert_rejected(&[0xff]);
    assert_rejected(&[b'a', 0xfe, b'b']);
}

#[test]
fn rejects_truncated_sequence() {
    assert_rejected(&[0xc3]);
    assert_rejected(&[b'o', b'k', 0xe2, 0x82]);
    assert_rejected(&[0xf0, 0x9f, 0x98]);
}

#[test]
fn rejects_overlong_encoding() {
    assert_rejected(&[0xc0, 0x80]);
    assert_rejected(&[0xe0, 0x80, 0xaf]);
}

#[test]
fn rejects_encoded_surrogate() {
    assert_rejected(&[0xed, 0xa0, 0x80]);
}

#[test]
fn rejects_code_point_beyond_unicode() {
    assert_rejected(&[0xf4, 0x90, 0x80, 0x80]);
}

#[test]
fn rejected_input_leaves_output_as_it_was() {
    let mut output: Vec<u8> = b"before".to_vec();

    // The valid prefix "abc" is not written either.
    assert_eq!(upcase(&[b'a', b'b', b'c', 0xff], &mut output), Err(UpcaseError::InvalidText));
    assert_eq!(&output, b"before");
}

#[test]
fn decode_returns_the_text_of_valid_input() {
    assert_eq!(decode(b"plain"), Ok("plain"));
    assert_eq!(decode(&[0xe2, 0x82, 0xac, b'1']), Ok("\u{20ac}1"));
    assert_eq!(decode(b""), Ok(""));
}

#[test]
fn decode_rejects_invalid_input() {
    assert_eq!(decode(&[0x61, 0x80]), Err(UpcaseError::InvalidText));
    assert_eq!(decode(&[0xed, 0xbf, 0xbf]), Err(UpcaseError::InvalidText));
}

#[test]
fn write_text_appends_the_encoding() {
    let mut output: Vec<u8> = vec![1, 2];

    write_text("a\u{e9}\u{20ac}\u{1f600}", &mut output);
    assert_eq!(
        output,
        vec![1, 2, 0x61, 0xc3, 0xa9, 0xe2, 0x82, 0xac, 0xf0, 0x9f, 0x98, 0x80]
    );
    write_text("", &mut output);
    assert_eq!(output.len(), 12);
}

#[test]
fn write_text_does_not_change_case() {
    let mut output: Vec<u8> = Vec::new();

    write_text("MiXeD", &mut output);
    assert_eq!(&output, b"MiXeD");
}
