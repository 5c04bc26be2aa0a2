//! The capture-slot buffer.
//!
//! A buffer holds two slots per capture group of the pattern it was created
//! for: slots `2*i` and `2*i + 1` are the start and end offsets of group `i`
//! in the most recent successful query, or `None` where the group did not
//! take part.  Group 0 is the whole match.

use crate::engine::engine_group_count;
use crate::pattern::Pattern;
use crate::rure_match;
use vstd::prelude::*;

verus! {

/// A heap-owned, reusable capture-slot buffer, bound to the group count of
/// one compiled pattern.
pub struct Captures(Vec<Option<usize>>);

impl Captures {
    /// The slot values, two per capture group.
    pub closed spec fn slots(&self) -> Seq<Option<usize>> {
        self.0@
    }

    /// The buffer fits the pattern it is used with: two slots per capture
    /// group.
    pub open spec fn compatible(&self, pat: Seq<u8>) -> bool {
        self.slots().len() == 2 * engine_group_count(pat)
    }

    /// Replaces the slot values wholesale.
    pub(crate) fn set_slots(&mut self, slots: Vec<Option<usize>>)
        ensures
            final(self).slots() == slots@,
    {
        self.0 = slots;
    }
}

/// Creates a capture buffer sized for `re`, every slot empty.
pub fn rure_captures_new(re: &Pattern) -> (r: Captures)
    ensures
        r.compatible(re.pat()),
        r.slots().len() == 2 * engine_group_count(re.pat()),
        r.slots().len() >= 2,
        forall|i: int| 0 <= i < r.slots().len() ==> r.slots()[i] is None,
{
    let n = crate::engine::captures_len(re.engine_ref());
    let mut slots: Vec<Option<usize>> = Vec::new();
    let mut i: usize = 0;
    while i < n
        invariant
            i <= n,
            n == engine_group_count(re.pat()),
            slots@.len() == 2 * i,
            forall|j: int| 0 <= j < slots@.len() ==> slots@[j] is None,
        decreases n - i,
    {
        slots.push(Option::None);
        slots.push(Option::None);
        i = i + 1;
    }
    Captures(slots)
}

/// Releases a capture buffer.  Handles are destroyed exactly once, by their
/// owner.
pub fn rure_captures_free(_captures: Captures) {
}

/// Reads the offsets of capture group `i` from the buffer.  When both slots
/// of the group are filled, writes them into `match_info` and returns true;
/// otherwise returns false and leaves `match_info` untouched.  An index at or
/// past the group count is a caller error, ruled out by the requires.
pub fn rure_captures_at(captures: &Captures, i: usize, match_info: &mut rure_match) -> (r: bool)
    requires
        i < captures.slots().len() / 2,
    ensures
        r == (captures.slots()[2 * i] is Some && captures.slots()[2 * i + 1] is Some),
        (r ==> captures.slots()[2 * i] == Some(final(match_info).start) && captures.slots()[2 * i
            + 1] == Some(final(match_info).end)),
        (!r ==> *final(match_info) == *old(match_info)),
{
    let len = captures.0.len();
    proof {
        assert(len / 2 * 2 <= len);
        assert(i * 2 + 1 < len);
    }
    let lo = captures.0[i * 2];
    let hi = captures.0[i * 2 + 1];
    match (lo, hi) {
        (Option::Some(start), Option::Some(end)) => {
            match_info.start = start;
            match_info.end = end;
            true
        },
        _ => false,
    }
}

/// The number of capture groups the buffer has slots for, group 0 included.
pub fn rure_captures_len(captures: &Captures) -> (r: usize)
    ensures
        r == captures.slots().len() / 2,
{
    captures.0.len() / 2
}

} // verus!
