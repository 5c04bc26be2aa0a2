//! The non-overlapping match iterator.
//!
//! An iterator is bound to one compiled pattern and one haystack and yields
//! successive non-overlapping matches.  The one algorithmic subtlety lives
//! here: a zero-width match must advance the cursor to keep the scan moving,
//! and a zero-width match glued to the end of the previous match must be
//! suppressed rather than reported.  The whole step is modelled by the spec
//! function [`iter_step`], and both stepping operations are proved to follow
//! it exactly.

use crate::captures::Captures;
use crate::engine;
use crate::engine::{engine_slots, find_model};
use crate::pattern::Pattern;
use crate::rure_match;
use vstd::prelude::*;

verus! {

/// What one step of the iterator does: the match it reports, if any, the
/// cursor and last-match mark it leaves behind, and the offset `probe` at
/// which the engine produced the reported match.
pub struct IterStep {
    pub found: Option<(int, int)>,
    pub cursor: int,
    pub mark: Option<int>,
    pub probe: int,
}

/// The step algorithm.  From cursor `cursor` and previous-match mark `mark`:
/// past the end of the haystack, report nothing; otherwise ask the engine for
/// the first match at or after the cursor.  A non-empty match moves the
/// cursor to its end.  An empty match moves the cursor one past its end, and
/// when it sits exactly at the end of the previously reported match it is
/// suppressed and the step retries from the advanced cursor.
pub open spec fn iter_step(pat: Seq<u8>, hay: Seq<u8>, cursor: int, mark: Option<int>) -> IterStep
    decreases hay.len() + 1 - cursor,
{
    if cursor > hay.len() {
        IterStep { found: None, cursor, mark, probe: cursor }
    } else {
        match find_model(pat, hay, cursor) {
            None => IterStep { found: None, cursor, mark, probe: cursor },
            Some((s, e)) => {
                if s == e {
                    if mark == Some(e) {
                        iter_step(pat, hay, e + 1, mark)
                    } else {
                        IterStep { found: Some((s, e)), cursor: e + 1, mark: Some(e), probe: cursor }
                    }
                } else {
                    IterStep { found: Some((s, e)), cursor: e, mark: Some(e), probe: cursor }
                }
            },
        }
    }
}

/// A cursor bound to one compiled pattern and one haystack, yielding
/// successive non-overlapping matches.  The haystack is borrowed, not owned:
/// the caller keeps it alive for the iterator's lifetime.
pub struct Iter<'h> {
    re: &'h Pattern,
    haystack: &'h [u8],
    last_end: usize,
    last_match: Option<usize>,
}

impl<'h> Iter<'h> {
    /// The pattern text of the pattern this iterator searches with.
    pub closed spec fn pat(&self) -> Seq<u8> {
        self.re.pat()
    }

    /// The haystack this iterator scans.
    pub closed spec fn hay(&self) -> Seq<u8> {
        self.haystack@
    }

    /// The offset the next search starts at.
    pub closed spec fn cursor(&self) -> int {
        self.last_end as int
    }

    /// The end offset of the most recent reported match, if any.
    pub closed spec fn mark(&self) -> Option<int> {
        match self.last_match {
            Some(e) => Some(e as int),
            None => None,
        }
    }

    /// The haystack leaves room for the cursor to pass its end.
    pub closed spec fn wf(&self) -> bool {
        self.hay().len() < usize::MAX
    }
}

/// Creates an iterator over all non-overlapping matches of `re` in
/// `haystack`, starting at the beginning.
pub fn rure_iter_new<'h>(re: &'h Pattern, haystack: &'h [u8]) -> (r: Iter<'h>)
    requires
        haystack@.len() < usize::MAX,
    ensures
        r.wf(),
        r.pat() == re.pat(),
        r.hay() == haystack@,
        r.cursor() == 0,
        r.mark() is None,
{
    Iter { re, haystack, last_end: 0, last_match: Option::None }
}

/// Releases an iterator.  The pattern and the haystack it referenced are not
/// released: the iterator does not own them.
pub fn rure_iter_free(_it: Iter<'_>) {
}

/// Advances the iterator.  Reports the next non-overlapping match through
/// `match_info` and returns true, or returns false when the scan is
/// exhausted; the step follows [`iter_step`] exactly.
pub fn rure_iter_next<'h>(it: &mut Iter<'h>, match_info: &mut rure_match) -> (r: bool)
    requires
        old(it).wf(),
    ensures
        final(it).wf(),
        final(it).pat() == old(it).pat(),
        final(it).hay() == old(it).hay(),
        final(it).cursor() >= old(it).cursor(),
        ({
            let st = iter_step(old(it).pat(), old(it).hay(), old(it).cursor(), old(it).mark());
            &&& r == (st.found is Some)
            &&& final(it).cursor() == st.cursor
            &&& final(it).mark() == st.mark
            &&& (r ==> st.found == Some(
                (final(match_info).start as int, final(match_info).end as int),
            ))
            &&& (!r ==> *final(match_info) == *old(match_info))
        }),
{
    let ghost st = iter_step(old(it).pat(), old(it).hay(), old(it).cursor(), old(it).mark());
    loop
        invariant
            it.wf(),
            it.pat() == old(it).pat(),
            it.hay() == old(it).hay(),
            it.mark() == old(it).mark(),
            it.cursor() >= old(it).cursor(),
            st == iter_step(old(it).pat(), old(it).hay(), old(it).cursor(), old(it).mark()),
            st == iter_step(it.pat(), it.hay(), it.cursor(), it.mark()),
            *match_info == *old(match_info),
        decreases it.hay().len() + 1 - it.cursor(),
    {
        if it.last_end > it.haystack.len() {
            return false;
        }
        match engine::find_at(it.re.engine_ref(), it.haystack, it.last_end) {
            Option::None => {
                return false;
            },
            Option::Some((s, e)) => {
                proof {
                    assert(find_model(it.pat(), it.hay(), it.cursor()) == Some(
                        (s as int, e as int),
                    ));
                }
                if s == e {
                    let suppress = match it.last_match {
                        Option::Some(prev) => prev == e,
                        Option::None => false,
                    };
                    it.last_end = e + 1;
                    if !suppress {
                        it.last_match = Option::Some(e);
                        match_info.start = s;
                        match_info.end = e;
                        return true;
                    }
                } else {
                    it.last_end = e;
                    it.last_match = Option::Some(e);
                    match_info.start = s;
                    match_info.end = e;
                    return true;
                }
            },
        }
    }
}

/// Advances the iterator as [`rure_iter_next`] does, and additionally fills
/// the capture buffer from the reported match's probe.  The buffer must have
/// been created for this iterator's pattern; its slot count is preserved
/// whatever happens, but on a suppressed or failed step its contents are
/// engine-defined.
pub fn rure_iter_next_captures<'h>(it: &mut Iter<'h>, captures: &mut Captures) -> (r: bool)
    requires
        old(it).wf(),
        old(captures).compatible(old(it).pat()),
    ensures
        final(it).wf(),
        final(it).pat() == old(it).pat(),
        final(it).hay() == old(it).hay(),
        final(it).cursor() >= old(it).cursor(),
        final(captures).compatible(old(it).pat()),
        (old(it).cursor() > old(it).hay().len() ==> *final(captures) == *old(captures)),
        ({
            let st = iter_step(old(it).pat(), old(it).hay(), old(it).cursor(), old(it).mark());
            &&& r == (st.found is Some)
            &&& final(it).cursor() == st.cursor
            &&& final(it).mark() == st.mark
            &&& (r ==> final(captures).slots() == engine_slots(
                old(it).pat(),
                old(it).hay(),
                st.probe,
            ))
            &&& (r ==> (st.found matches Some((s, e)) && final(captures).slots()[0] == Some(
                s as usize,
            ) && final(captures).slots()[1] == Some(e as usize)))
        }),
{
    let ghost st = iter_step(old(it).pat(), old(it).hay(), old(it).cursor(), old(it).mark());
    loop
        invariant
            it.wf(),
            it.pat() == old(it).pat(),
            it.hay() == old(it).hay(),
            it.mark() == old(it).mark(),
            it.cursor() >= old(it).cursor(),
            captures.compatible(old(it).pat()),
            (old(it).cursor() > old(it).hay().len() ==> *captures == *old(captures)),
            st == iter_step(old(it).pat(), old(it).hay(), old(it).cursor(), old(it).mark()),
            st == iter_step(it.pat(), it.hay(), it.cursor(), it.mark()),
        decreases it.hay().len() + 1 - it.cursor(),
    {
        if it.last_end > it.haystack.len() {
            return false;
        }
        match engine::captures_at(it.re.engine_ref(), it.haystack, it.last_end) {
            Option::None => {
                return false;
            },
            Option::Some(t) => {
                let (s, e, slots) = t;
                proof {
                    assert(find_model(it.pat(), it.hay(), it.cursor()) == Some(
                        (s as int, e as int),
                    ));
                }
                captures.set_slots(slots);
                if s == e {
                    let suppress = match it.last_match {
                        Option::Some(prev) => prev == e,
                        Option::None => false,
                    };
                    it.last_end = e + 1;
                    if !suppress {
                        it.last_match = Option::Some(e);
                        return true;
                    }
                } else {
                    it.last_end = e;
                    it.last_match = Option::Some(e);
                    return true;
                }
            },
        }
    }
}

/// Every match the step model yields lies between the cursor it started from
/// and the end of the haystack; the cursor never moves backwards, lands at or
/// past the end of a reported match, and passes a reported empty match by
/// exactly one byte.
pub proof fn lemma_step_bounds(pat: Seq<u8>, hay: Seq<u8>, cursor: int, mark: Option<int>)
    ensures
        ({
            let st = iter_step(pat, hay, cursor, mark);
            &&& st.cursor >= cursor
            &&& (st.found matches Some((s, e)) ==> cursor <= s <= e <= hay.len() && e <= st.cursor
                && (s == e ==> st.cursor == e + 1) && st.mark == Some(e))
        }),
    decreases hay.len() + 1 - cursor,
{
    if cursor <= hay.len() {
        match find_model(pat, hay, cursor) {
            Some((s, e)) => {
                if s == e && mark == Some(e) {
                    lemma_step_bounds(pat, hay, e + 1, mark);
                }
            },
            None => {},
        }
    }
}

/// Exhaustion is permanent: once a step reports no match, stepping again from
/// the state it leaves behind reports no match and leaves the state as it
/// is.
pub proof fn lemma_exhaustion_permanent(pat: Seq<u8>, hay: Seq<u8>, cursor: int, mark: Option<int>)
    ensures
        ({
            let st = iter_step(pat, hay, cursor, mark);
            st.found is None ==> iter_step(pat, hay, st.cursor, st.mark) == st
        }),
    decreases hay.len() + 1 - cursor,
{
    if cursor <= hay.len() {
        match find_model(pat, hay, cursor) {
            Some((s, e)) => {
                if s == e && mark == Some(e) {
                    lemma_exhaustion_permanent(pat, hay, e + 1, mark);
                }
            },
            None => {},
        }
    }
}

/// Matches are reported without overlap and in strictly increasing order of
/// start: when one step reports `(s1, e1)` and the next reports `(s2, e2)`,
/// then `e1 <= s2` and `s1 < s2`.
pub proof fn lemma_matches_ordered(pat: Seq<u8>, hay: Seq<u8>, cursor: int, mark: Option<int>)
    ensures
        ({
            let st1 = iter_step(pat, hay, cursor, mark);
            let st2 = iter_step(pat, hay, st1.cursor, st1.mark);
            st1.found matches Some((s1, e1)) ==> (st2.found matches Some((s2, e2)) ==> (e1 <= s2
                && s1 < s2))
        }),
{
    let st1 = iter_step(pat, hay, cursor, mark);
    lemma_step_bounds(pat, hay, cursor, mark);
    lemma_step_bounds(pat, hay, st1.cursor, st1.mark);
}

} // verus!
