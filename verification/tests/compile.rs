//! Compilation and error-cell behaviour.

use rure::{
    rure_compile, rure_compile_options, rure_error_free, rure_error_message, rure_error_new,
    rure_free, Options,
};

#[test]
fn fresh_cell_renders_no_error() {
    let mut err = rure_error_new();
    assert_eq!(rure_error_message(&mut err), "no error");
    // Rendering is idempotent: a second call reports the same text.
    assert_eq!(rure_error_message(&mut err), "no error");
    rure_error_free(err);
}

#[test]
fn valid_pattern_compiles() {
    let mut err = rure_error_new();
    let re = rure_compile_options(b"a+", None, &mut err);
    assert!(re.is_some());
    assert_eq!(rure_error_message(&mut err), "no error");
    rure_free(re.unwrap());
    rure_error_free(err);
}

#[test]
fn successful_compile_clears_a_stale_failure() {
    // The cell is overwritten on every fallible call that receives it: after
    // a success it no longer reports an earlier failure.
    let mut err = rure_error_new();
    assert!(rure_compile_options(b"(", None, &mut err).is_none());
    assert_ne!(rure_error_message(&mut err), "no error");
    let re = rure_compile_options(b"a+", None, &mut err);
    assert!(re.is_some());
    assert_eq!(rure_error_message(&mut err), "no error");
    rure_free(re.unwrap());
    rure_error_free(err);
}

#[test]
fn options_value_has_no_effect() {
    let mut err = rure_error_new();
    let opts = Options {};
    let re = rure_compile_options(b"a+", Some(&opts), &mut err);
    assert!(re.is_some());
    rure_free(re.unwrap());
    rure_error_free(err);
}

#[test]
fn invalid_pattern_reports_compile_error() {
    let mut err = rure_error_new();
    let re = rure_compile_options(b"(", None, &mut err);
    assert!(re.is_none());
    let msg = rure_error_message(&mut err);
    assert!(!msg.is_empty());
    assert_ne!(msg, "no error");
    rure_error_free(err);
}

#[test]
fn invalid_utf8_reports_decode_offset() {
    let mut err = rure_error_new();
    let re = rure_compile_options(b"ab\xff", None, &mut err);
    assert!(re.is_none());
    assert_eq!(
        rure_error_message(&mut err),
        "invalid utf-8 in pattern at byte 2"
    );
    rure_error_free(err);
}

#[test]
fn decode_offset_renders_multiple_digits() {
    let mut err = rure_error_new();
    let re = rure_compile_options(b"aaaaaaaaaaaa\x80", None, &mut err);
    assert!(re.is_none());
    assert_eq!(
        rure_error_message(&mut err),
        "invalid utf-8 in pattern at byte 12"
    );
    rure_error_free(err);
}

#[test]
fn overlong_and_surrogate_sequences_are_rejected() {
    let mut err = rure_error_new();
    assert!(rure_compile_options(b"ab\xc0\xaf", None, &mut err).is_none());
    assert_eq!(
        rure_error_message(&mut err),
        "invalid utf-8 in pattern at byte 2"
    );
    assert!(rure_compile_options(b"\xed\xa0\x80", None, &mut err).is_none());
    assert_eq!(
        rure_error_message(&mut err),
        "invalid utf-8 in pattern at byte 0"
    );
    assert!(rure_compile_options(b"\xf4\x90\x80\x80", None, &mut err).is_none());
    assert_eq!(
        rure_error_message(&mut err),
        "invalid utf-8 in pattern at byte 0"
    );
    // Incomplete trailing sequence.
    assert!(rure_compile_options(b"ab\xc3", None, &mut err).is_none());
    assert_eq!(
        rure_error_message(&mut err),
        "invalid utf-8 in pattern at byte 2"
    );
    rure_error_free(err);
}

#[test]
fn boundary_scalars_compile() {
    let mut err = rure_error_new();
    // U+10FFFF, the largest scalar, and a three-byte scalar.
    let re = rure_compile_options(b"\xf4\x8f\xbf\xbf\xe2\x82\xac", None, &mut err);
    assert!(re.is_some());
    rure_free(re.unwrap());
    rure_error_free(err);
}

#[test]
fn compile_error_rendering_is_nul_safe() {
    // The pattern text is echoed into the diagnostic; its NUL byte must not
    // survive into the rendered message.
    let mut err = rure_error_new();
    let re = rure_compile_options(b"\x00(", None, &mut err);
    assert!(re.is_none());
    let msg = rure_error_message(&mut err);
    assert!(!msg.contains('\0'));
    assert!(!msg.is_empty());
    assert_ne!(msg, "no error");
    rure_error_free(err);
}

#[test]
fn error_cell_is_overwritten_by_each_failure() {
    let mut err = rure_error_new();
    assert!(rure_compile_options(b"(", None, &mut err).is_none());
    let first = rure_error_message(&mut err);
    assert!(rure_compile_options(b"\xff", None, &mut err).is_none());
    let second = rure_error_message(&mut err);
    assert_ne!(first, second);
    assert_eq!(second, "invalid utf-8 in pattern at byte 0");
    rure_error_free(err);
}

#[test]
fn compile_stops_at_nul_terminator() {
    let mut err = rure_error_new();
    // The terminator convention: only the bytes before the first NUL count.
    let re = rure_compile(b"b+\x00(", &mut err);
    assert!(re.is_some());
    rure_free(re.unwrap());
    // Without a NUL the whole slice is the pattern.
    let re = rure_compile(b"a+", &mut err);
    assert!(re.is_some());
    rure_free(re.unwrap());
    // A leading NUL means the empty pattern.
    let re = rure_compile(b"\x00(", &mut err);
    assert!(re.is_some());
    rure_free(re.unwrap());
    rure_error_free(err);
}
