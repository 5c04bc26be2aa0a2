//! A UTF-8 validator for pattern bytes.
//!
//! Compilation must reject byte spans that are not well-formed UTF-8 and
//! report the byte offset where decoding stops.  The validator below is
//! proved against `vstd::utf8::valid_utf8`, and the reported offset against
//! [`utf8_frontier`], the length of the longest prefix made of complete,
//! well-formed scalar encodings.

use vstd::prelude::*;
use vstd::utf8::{
    is_continuation_byte, is_leading_byte_width_1, is_leading_byte_width_2,
    is_leading_byte_width_3, is_leading_byte_width_4, length_of_first_scalar,
    partial_valid_partial_invalid_utf8, partial_valid_utf8, partial_valid_utf8_extend,
    valid_first_scalar, valid_utf8,
};

verus! {

/// A well-formed scalar encoding is one to four bytes long and fits in the
/// sequence it starts.
pub proof fn lemma_first_scalar_len(s: Seq<u8>)
    requires
        valid_first_scalar(s),
    ensures
        1 <= length_of_first_scalar(s) <= s.len(),
{
}

/// How far a left-to-right UTF-8 scan of `s` that is at offset `i` gets
/// before it stops: the end of the longest run of complete, well-formed
/// scalar encodings starting there.
pub open spec fn utf8_frontier_from(s: Seq<u8>, i: int) -> int
    recommends
        0 <= i <= s.len(),
    decreases s.len() - i,
    when 0 <= i <= s.len()
    via utf8_frontier_from_decreases
{
    if i == s.len() {
        i
    } else if valid_first_scalar(s.subrange(i, s.len() as int)) {
        utf8_frontier_from(s, i + length_of_first_scalar(s.subrange(i, s.len() as int)))
    } else {
        i
    }
}

#[via_fn]
proof fn utf8_frontier_from_decreases(s: Seq<u8>, i: int) {
    if i != s.len() && valid_first_scalar(s.subrange(i, s.len() as int)) {
        lemma_first_scalar_len(s.subrange(i, s.len() as int));
    }
}

/// The byte offset where a left-to-right UTF-8 scan of `s` stops; `s.len()`
/// when all of `s` is well formed.
pub open spec fn utf8_frontier(s: Seq<u8>) -> int {
    utf8_frontier_from(s, 0)
}

/// Checks whether `s` is well-formed UTF-8; on failure reports the byte
/// offset of the first invalid or incomplete scalar encoding.
pub fn utf8_validate(s: &[u8]) -> (r: Result<(), usize>)
    ensures
        (r is Ok) == valid_utf8(s@),
        (r matches Err(pos) ==> {
            &&& !valid_utf8(s@)
            &&& pos < s@.len()
            &&& pos == utf8_frontier(s@)
        }),
{
    let n = s.len();
    let mut i: usize = 0;
    while i < n
        invariant
            i <= n == s@.len(),
            partial_valid_utf8(s@, i as int),
            utf8_frontier(s@) == utf8_frontier_from(s@, i as int),
        decreases n - i,
    {
        let ghost tail = s@.subrange(i as int, s@.len() as int);
        let b0 = s[i];
        proof {
            assert(tail.len() == n - i);
            assert(tail[0] == b0);
        }
        if b0 < 0x80 {
            proof {
                assert(b0 & 0x7f == b0) by (bit_vector)
                    requires
                        b0 < 0x80,
                ;
                assert(valid_first_scalar(tail));
                assert(length_of_first_scalar(tail) == 1);
                partial_valid_utf8_extend(s@, i as int);
            }
            i = i + 1;
        } else if 0xc0 <= b0 && b0 <= 0xdf {
            if n - i < 2 {
                proof {
                    lemma_scan_stop(s@, i as int);
                }
                return Err(i);
            }
            let b1 = s[i + 1];
            proof {
                assert(tail[1] == b1);
            }
            if !(0x80 <= b1 && b1 <= 0xbf) {
                proof {
                    lemma_scan_stop(s@, i as int);
                }
                return Err(i);
            }
            let cp: u32 = (((b0 & 0x1f) as u32) << 6) | ((b1 & 0x3f) as u32);
            proof {
                assert(cp <= 0x7ff) by (bit_vector)
                    requires
                        cp == (((b0 & 0x1f) as u32) << 6) | ((b1 & 0x3f) as u32),
                ;
            }
            if cp < 0x80 {
                proof {
                    lemma_scan_stop(s@, i as int);
                }
                return Err(i);
            }
            proof {
                assert(valid_first_scalar(tail));
                assert(length_of_first_scalar(tail) == 2);
                partial_valid_utf8_extend(s@, i as int);
            }
            i = i + 2;
        } else if 0xe0 <= b0 && b0 <= 0xef {
            if n - i < 3 {
                proof {
                    lemma_scan_stop(s@, i as int);
                }
                return Err(i);
            }
            let b1 = s[i + 1];
            let b2 = s[i + 2];
            proof {
                assert(tail[1] == b1);
                assert(tail[2] == b2);
            }
            if !(0x80 <= b1 && b1 <= 0xbf) || !(0x80 <= b2 && b2 <= 0xbf) {
                proof {
                    lemma_scan_stop(s@, i as int);
                }
                return Err(i);
            }
            let cp: u32 = (((b0 & 0x0f) as u32) << 12) | (((b1 & 0x3f) as u32) << 6) | ((b2
                & 0x3f) as u32);
            if cp < 0x800 || (0xd800 <= cp && cp <= 0xdfff) {
                proof {
                    lemma_scan_stop(s@, i as int);
                }
                return Err(i);
            }
            proof {
                assert(valid_first_scalar(tail));
                assert(length_of_first_scalar(tail) == 3);
                partial_valid_utf8_extend(s@, i as int);
            }
            i = i + 3;
        } else if 0xf0 <= b0 && b0 <= 0xf7 {
            if n - i < 4 {
                proof {
                    lemma_scan_stop(s@, i as int);
                }
                return Err(i);
            }
            let b1 = s[i + 1];
            let b2 = s[i + 2];
            let b3 = s[i + 3];
            proof {
                assert(tail[1] == b1);
                assert(tail[2] == b2);
                assert(tail[3] == b3);
            }
            if !(0x80 <= b1 && b1 <= 0xbf) || !(0x80 <= b2 && b2 <= 0xbf) || !(0x80 <= b3 && b3
                <= 0xbf) {
                proof {
                    lemma_scan_stop(s@, i as int);
                }
                return Err(i);
            }
            let cp: u32 = (((b0 & 0x07) as u32) << 18) | (((b1 & 0x3f) as u32) << 12) | (((b2
                & 0x3f) as u32) << 6) | ((b3 & 0x3f) as u32);
            if cp < 0x10000 || cp > 0x10ffff {
                proof {
                    lemma_scan_stop(s@, i as int);
                }
                return Err(i);
            }
            proof {
                assert(valid_first_scalar(tail));
                assert(length_of_first_scalar(tail) == 4);
                partial_valid_utf8_extend(s@, i as int);
            }
            i = i + 4;
        } else {
            proof {
                lemma_scan_stop(s@, i as int);
            }
            return Err(i);
        }
    }
    proof {
        assert(s@.subrange(0, n as int) =~= s@);
    }
    Ok(())
}

/// At a position where the next scalar encoding is ill formed, the scan stops
/// and the whole sequence is not valid UTF-8.
proof fn lemma_scan_stop(s: Seq<u8>, i: int)
    requires
        0 <= i < s.len(),
        partial_valid_utf8(s, i),
        !valid_first_scalar(s.subrange(i, s.len() as int)),
    ensures
        !valid_utf8(s),
        utf8_frontier_from(s, i) == i,
{
    let tail = s.subrange(i, s.len() as int);
    assert(tail.len() > 0);
    assert(!valid_utf8(tail));
    partial_valid_partial_invalid_utf8(s, i);
}

} // verus!
