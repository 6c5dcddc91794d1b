//! The UTF-8 validator against the standard library's verdicts.

use reflex::utf8::validate_utf8;

fn agree(bytes: &[u8]) {
    let v = bytes.to_vec();
    assert_eq!(
        validate_utf8(&v),
        std::str::from_utf8(bytes).is_ok(),
        "validator disagrees with std on {:?}",
        bytes
    );
}

#[test]
fn ascii_and_multibyte_accepted() {
    agree(b"");
    agree(b"plain ascii");
    agree("héllo".as_bytes());
    agree("文字化け".as_bytes());
    agree("🙂 emoji".as_bytes());
}

#[test]
fn truncated_sequences_rejected() {
    agree(&[0xC3]);
    agree(&[0xE2, 0x82]);
    agree(&[0xF0, 0x9F, 0x99]);
}

#[test]
fn stray_continuation_rejected() {
    agree(&[0x80]);
    agree(&[b'a', 0xBF, b'b']);
}

#[test]
fn overlong_encodings_rejected() {
    agree(&[0xC0, 0xAF]);
    agree(&[0xC1, 0x80]);
    agree(&[0xE0, 0x80, 0xAF]);
    agree(&[0xF0, 0x80, 0x80, 0xAF]);
}

#[test]
fn surrogates_rejected() {
    agree(&[0xED, 0xA0, 0x80]);
    agree(&[0xED, 0xBF, 0xBF]);
    agree(&[0xED, 0x9F, 0xBF]);
}

#[test]
fn beyond_max_code_point_rejected() {
    agree(&[0xF4, 0x90, 0x80, 0x80]);
    agree(&[0xF5, 0x80, 0x80, 0x80]);
    agree(&[0xF4, 0x8F, 0xBF, 0xBF]);
}

#[test]
fn interior_nul_is_valid() {
    agree(&[b'a', 0, b'b']);
}
