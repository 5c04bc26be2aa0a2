//! A foreign-callable boundary over a text-pattern matching engine: compile
//! a pattern, test and find matches, read capture groups, and iterate all
//! non-overlapping matches of a byte buffer, with an explicit, reusable
//! error cell for compile failures.

mod captures;
mod engine;
mod error;
mod iter;
mod pattern;
mod utf8;

pub use captures::{
    rure_captures_at, rure_captures_free, rure_captures_len, rure_captures_new, Captures,
};
pub use engine::{
    engine_accepts, engine_group_count, engine_group_names, engine_reject_text, engine_search,
    engine_slots, find_model, match_at, reject_shape,
};
pub use error::{
    cut_at_nul, dec_digits, digit_char, lemma_rendering_names_the_state, no_nul, nul_cut,
    render_spec, rure_error_free, rure_error_message, rure_error_new, ErrState, Error,
};
pub use iter::{
    iter_step, lemma_exhaustion_permanent, lemma_matches_ordered, lemma_step_bounds,
    rure_iter_free, rure_iter_new, rure_iter_next, rure_iter_next_captures, Iter, IterStep,
};
pub use pattern::{
    c_prefix, lemma_find_from_offset, lemma_is_match_iff_find, name_lookup,
    rure_capture_name_index, rure_compile, rure_compile_options, rure_find, rure_find_captures,
    rure_free, rure_is_match, zero_cut, Options, Pattern,
};
pub use utf8::{utf8_frontier, utf8_frontier_from, utf8_validate};

use vstd::prelude::*;

verus! {

/// A single match: a half-open span of byte offsets into a haystack,
/// `start` inclusive and `end` exclusive.  Returned by value or written into
/// caller-supplied storage; never heap-allocated.
#[allow(non_camel_case_types)]
#[derive(Clone, Copy, PartialEq, Eq, Structural, Debug)]
pub struct rure_match {
    pub start: usize,
    pub end: usize,
}

} // verus!
