//! Direct queries: is-match, find, captures, and name lookup.

use rure::{
    rure_capture_name_index, rure_captures_at, rure_captures_free, rure_captures_len,
    rure_captures_new, rure_compile_options, rure_error_free, rure_error_new, rure_find,
    rure_find_captures, rure_free, rure_is_match, rure_match, Pattern,
};

fn compile(pattern: &[u8]) -> Pattern {
    let mut err = rure_error_new();
    let re = rure_compile_options(pattern, None, &mut err);
    rure_error_free(err);
    re.unwrap()
}

#[test]
fn find_reports_byte_offsets() {
    let re = compile(b"b+");
    let hay = b"abbbc";
    let mut m = rure_match { start: 0, end: 0 };
    assert!(rure_find(&re, hay, 0, &mut m));
    assert_eq!((m.start, m.end), (1, 4));
    rure_free(re);
}

#[test]
fn is_match_iff_find_reports_a_match() {
    let re = compile(b"b+");
    let hay = b"abbbc";
    for k in 0..=hay.len() {
        let mut m = rure_match { start: 0, end: 0 };
        let found = rure_find(&re, hay, k, &mut m);
        assert_eq!(rure_is_match(&re, hay, k), found);
    }
    rure_free(re);
}

#[test]
fn find_starts_at_or_after_offset() {
    let re = compile(b"b+");
    let hay = b"abbbc";
    for k in 0..=hay.len() {
        let mut m = rure_match { start: 0, end: 0 };
        if rure_find(&re, hay, k, &mut m) {
            assert!(m.start >= k);
            assert!(m.start <= m.end && m.end <= hay.len());
        }
    }
    // From inside the run of b's the match starts exactly there.
    let mut m = rure_match { start: 0, end: 0 };
    assert!(rure_find(&re, hay, 2, &mut m));
    assert_eq!((m.start, m.end), (2, 4));
    rure_free(re);
}

#[test]
fn find_without_match_leaves_out_span_untouched() {
    let re = compile(b"z");
    let mut m = rure_match { start: 7, end: 9 };
    assert!(!rure_find(&re, b"abc", 0, &mut m));
    assert_eq!((m.start, m.end), (7, 9));
    rure_free(re);
}

#[test]
fn captures_round_trip_through_named_groups() {
    let re = compile(b"(?P<year>[0-9]{4})-(?P<month>[0-9]{2})");
    let mut caps = rure_captures_new(&re);
    assert_eq!(rure_captures_len(&caps), 3);

    let year = rure_capture_name_index(&re, b"year");
    let month = rure_capture_name_index(&re, b"month");
    assert_eq!(year, 1);
    assert_eq!(month, 2);
    assert_eq!(rure_capture_name_index(&re, b"day"), -1);

    let hay = b"on 2010-03 it";
    assert!(rure_find_captures(&re, hay, 0, &mut caps));
    let mut m = rure_match { start: 0, end: 0 };
    assert!(rure_captures_at(&caps, 0, &mut m));
    assert_eq!((m.start, m.end), (3, 10));
    assert!(rure_captures_at(&caps, year as usize, &mut m));
    assert_eq!((m.start, m.end), (3, 7));
    assert!(rure_captures_at(&caps, month as usize, &mut m));
    assert_eq!((m.start, m.end), (8, 10));

    rure_captures_free(caps);
    rure_free(re);
}

#[test]
fn group_that_took_no_part_reads_as_absent() {
    let re = compile(b"(a)|(b)");
    let mut caps = rure_captures_new(&re);
    assert_eq!(rure_captures_len(&caps), 3);
    assert!(rure_find_captures(&re, b"b", 0, &mut caps));
    let mut m = rure_match { start: 5, end: 5 };
    assert!(!rure_captures_at(&caps, 1, &mut m));
    // The out span is left untouched when the group is absent.
    assert_eq!((m.start, m.end), (5, 5));
    assert!(rure_captures_at(&caps, 2, &mut m));
    assert_eq!((m.start, m.end), (0, 1));
    rure_captures_free(caps);
    rure_free(re);
}

#[test]
fn fresh_capture_buffer_has_empty_slots() {
    let re = compile(b"(x)(y)");
    let caps = rure_captures_new(&re);
    assert_eq!(rure_captures_len(&caps), 3);
    let mut m = rure_match { start: 1, end: 2 };
    for i in 0..3 {
        assert!(!rure_captures_at(&caps, i, &mut m));
    }
    assert_eq!((m.start, m.end), (1, 2));
    rure_captures_free(caps);
    rure_free(re);
}

#[test]
fn find_captures_without_match_reports_false() {
    let re = compile(b"(z)");
    let mut caps = rure_captures_new(&re);
    assert!(!rure_find_captures(&re, b"abc", 0, &mut caps));
    rure_captures_free(caps);
    rure_free(re);
}

#[test]
fn name_lookup_rejects_unknown_and_non_utf8_names() {
    let re = compile(b"(?P<key>a)");
    assert_eq!(rure_capture_name_index(&re, b"key"), 1);
    assert_eq!(rure_capture_name_index(&re, b"ke"), -1);
    assert_eq!(rure_capture_name_index(&re, b"\xff\xfe"), -1);
    assert_eq!(rure_capture_name_index(&re, b""), -1);
    rure_free(re);
}

#[test]
fn anchors_keep_their_meaning_under_an_offset() {
    // The start offset is a literal scan origin: ^ still means the true
    // start of the haystack.
    let re = compile(b"^b");
    let hay = b"ab";
    assert!(!rure_is_match(&re, hay, 1));
    let re2 = compile(b"b");
    assert!(rure_is_match(&re2, hay, 1));
    rure_free(re);
    rure_free(re2);
}
