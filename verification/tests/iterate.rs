//! The non-overlapping match iterator: empty-match progression, adjacency
//! suppression, ordering, and permanent exhaustion.

use rure::{
    rure_captures_at, rure_captures_free, rure_captures_new, rure_compile_options,
    rure_error_free, rure_error_new, rure_free, rure_iter_free, rure_iter_new, rure_iter_next,
    rure_iter_next_captures, rure_match, Pattern,
};

fn compile(pattern: &[u8]) -> Pattern {
    let mut err = rure_error_new();
    let re = rure_compile_options(pattern, None, &mut err);
    rure_error_free(err);
    re.unwrap()
}

#[test]
fn empty_pattern_advances_through_every_position() {
    let re = compile(b"");
    let hay = b"ab";
    let mut it = rure_iter_new(&re, hay);
    let mut m = rure_match { start: 0, end: 0 };
    let mut got = Vec::new();
    while rure_iter_next(&mut it, &mut m) {
        got.push((m.start, m.end));
    }
    assert_eq!(got, vec![(0, 0), (1, 1), (2, 2)]);
    rure_iter_free(it);
    rure_free(re);
}

#[test]
fn empty_pattern_on_empty_haystack_matches_once() {
    let re = compile(b"");
    let mut it = rure_iter_new(&re, b"");
    let mut m = rure_match { start: 9, end: 9 };
    assert!(rure_iter_next(&mut it, &mut m));
    assert_eq!((m.start, m.end), (0, 0));
    assert!(!rure_iter_next(&mut it, &mut m));
    rure_iter_free(it);
    rure_free(re);
}

#[test]
fn empty_match_adjacent_to_a_real_match_is_suppressed() {
    // The pattern matches "a" or the empty string; on "a" only the real
    // match is reported, not the zero-width match glued to its end.
    let re = compile(b"a?");
    let mut it = rure_iter_new(&re, b"a");
    let mut m = rure_match { start: 0, end: 0 };
    assert!(rure_iter_next(&mut it, &mut m));
    assert_eq!((m.start, m.end), (0, 1));
    assert!(!rure_iter_next(&mut it, &mut m));
    rure_iter_free(it);
    rure_free(re);
}

#[test]
fn exhaustion_is_permanent() {
    let re = compile(b"a");
    let mut it = rure_iter_new(&re, b"b");
    let mut m = rure_match { start: 3, end: 4 };
    assert!(!rure_iter_next(&mut it, &mut m));
    for _ in 0..4 {
        assert!(!rure_iter_next(&mut it, &mut m));
    }
    // A step that reports no match leaves the out span untouched.
    assert_eq!((m.start, m.end), (3, 4));
    rure_iter_free(it);
    rure_free(re);
}

#[test]
fn matches_are_non_overlapping_and_ordered() {
    let re = compile(b"a");
    let hay = b"aaa";
    let mut it = rure_iter_new(&re, hay);
    let mut m = rure_match { start: 0, end: 0 };
    let mut got = Vec::new();
    while rure_iter_next(&mut it, &mut m) {
        got.push((m.start, m.end));
    }
    assert_eq!(got, vec![(0, 1), (1, 2), (2, 3)]);
    for w in got.windows(2) {
        assert!(w[0].1 <= w[1].0);
        assert!(w[0].0 < w[1].0);
    }
    rure_iter_free(it);
    rure_free(re);
}

#[test]
fn mixed_empty_and_real_matches_keep_increasing_starts() {
    let re = compile(b"a*");
    let hay = b"aab";
    let mut it = rure_iter_new(&re, hay);
    let mut m = rure_match { start: 0, end: 0 };
    let mut got = Vec::new();
    while rure_iter_next(&mut it, &mut m) {
        got.push((m.start, m.end));
    }
    // "aa" at the start, then the empty match at 2 is reported (it is not
    // adjacent-suppressed only when it duplicates the previous end; here it
    // is, so it is skipped) and the final empty match at 3 follows.
    assert_eq!(got, vec![(0, 2), (3, 3)]);
    let mut prev_start = None;
    for (s, e) in got {
        assert!(s <= e);
        if let Some(p) = prev_start {
            assert!(s > p);
        }
        prev_start = Some(s);
    }
    rure_iter_free(it);
    rure_free(re);
}

#[test]
fn iterating_with_captures_fills_the_buffer_per_match() {
    let re = compile(b"(?P<x>a+)");
    let hay = b"aa-aaa";
    let mut caps = rure_captures_new(&re);
    let mut it = rure_iter_new(&re, hay);
    let mut m = rure_match { start: 0, end: 0 };

    assert!(rure_iter_next_captures(&mut it, &mut caps));
    assert!(rure_captures_at(&caps, 0, &mut m));
    assert_eq!((m.start, m.end), (0, 2));
    assert!(rure_captures_at(&caps, 1, &mut m));
    assert_eq!((m.start, m.end), (0, 2));

    assert!(rure_iter_next_captures(&mut it, &mut caps));
    assert!(rure_captures_at(&caps, 0, &mut m));
    assert_eq!((m.start, m.end), (3, 6));

    assert!(!rure_iter_next_captures(&mut it, &mut caps));
    assert!(!rure_iter_next_captures(&mut it, &mut caps));

    rure_iter_free(it);
    rure_captures_free(caps);
    rure_free(re);
}
