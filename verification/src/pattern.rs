//! Compilation and the direct query operations.
//!
//! A [`Pattern`] owns a compiled engine instance and the table of capture group
//! names; it is immutable after construction and shared read-only by every
//! query.  Compilation validates the pattern bytes as UTF-8 before handing
//! them to the engine and reports failures through the caller's [`Error`]
//! cell.

use crate::captures::Captures;
use crate::engine;
use crate::engine::{
    engine_accepts, engine_group_count, engine_group_names, engine_reject_text, engine_slots,
    find_model, match_at, reject_shape, Engine,
};
use crate::error::{ErrState, Error};
use crate::rure_match;
use crate::utf8::{utf8_frontier, utf8_validate};
use vstd::prelude::*;
use vstd::utf8::valid_utf8;

verus! {

/// A reserved configuration placeholder: no options are recognized yet, and a
/// value of this type has no observable effect.
pub struct Options {}

/// An immutable compiled pattern: the engine instance plus the table of
/// capture group names, built once at compilation.
pub struct Pattern {
    engine: Engine,
    names: Vec<Option<Vec<u8>>>,
}

impl Pattern {
    /// The pattern text this value was compiled from.
    pub closed spec fn pat(&self) -> Seq<u8> {
        self.engine.pat()
    }

    /// The name table mirrors the engine's capture groups, one entry per
    /// group in index order; group 0, the whole match, is unnamed.
    pub closed spec fn wf(&self) -> bool {
        &&& self.names.deep_view() == engine_group_names(self.pat())
        &&& self.names@.len() == engine_group_count(self.pat())
        &&& self.names@.len() >= 1
        &&& self.names.deep_view()[0] is None
    }

    pub(crate) fn engine_ref(&self) -> (r: &Engine)
        ensures
            r.pat() == self.pat(),
    {
        &self.engine
    }
}

/// The position of the first NUL byte in `s`, or `s.len()` when there is
/// none.
pub open spec fn zero_cut(s: Seq<u8>) -> int
    decreases s.len(),
{
    if s.len() == 0 {
        0
    } else if s[0] == 0 {
        0
    } else {
        1 + zero_cut(s.drop_first())
    }
}

/// The bytes of a NUL-terminated pattern: everything before the first NUL
/// byte, or all of `s` when it has none.
pub open spec fn c_prefix(s: Seq<u8>) -> Seq<u8> {
    s.take(zero_cut(s))
}

/// `zero_cut` is exactly the position of the first NUL byte.
proof fn lemma_zero_cut_at(s: Seq<u8>, i: int)
    requires
        0 <= i <= s.len(),
        forall|j: int| 0 <= j < i ==> s[j] != 0,
        i < s.len() ==> s[i] == 0,
    ensures
        zero_cut(s) == i,
    decreases i,
{
    if i > 0 {
        assert(s[0] != 0);
        lemma_zero_cut_at(s.drop_first(), i - 1);
    }
}

/// Compiles the pattern bytes.  The bytes must be valid UTF-8 and a pattern
/// the engine accepts; otherwise the result is `None` and the error cell is
/// overwritten with the failure: the byte offset where UTF-8 decoding
/// stopped, or the engine's compile diagnostic.  On success the cell is
/// overwritten too, with the no-error state.  The options value is a reserved
/// placeholder with no effect.
pub fn rure_compile_options(pattern: &[u8], _options: Option<&Options>, error: &mut Error) -> (r:
    Option<Pattern>)
    requires
        old(error).wf(),
    ensures
        final(error).wf(),
        (r is Some) <==> (valid_utf8(pattern@) && engine_accepts(pattern@)),
        (r matches Some(re) ==> re.wf() && re.pat() == pattern@ && final(error).state()
            == ErrState::NoErr),
        !valid_utf8(pattern@) ==> final(error).state() == (ErrState::Decode {
            pos: utf8_frontier(pattern@),
        }),
        (valid_utf8(pattern@) && !engine_accepts(pattern@)) ==> final(error).state() == (
        ErrState::Compile { msg: engine_reject_text(pattern@) }) && reject_shape(
            engine_reject_text(pattern@),
        ),
{
    match utf8_validate(pattern) {
        Result::Err(pos) => {
            error.set_decode(pos);
            Option::None
        },
        Result::Ok(()) => match engine::compile(pattern) {
            Result::Err(msg) => {
                error.set_compile(msg);
                Option::None
            },
            Result::Ok(eng) => {
                let names = engine::capture_names(&eng);
                error.clear();
                proof {
                    assert(names.deep_view()[0] == names@[0].deep_view());
                }
                Option::Some(Pattern { engine: eng, names })
            },
        },
    }
}

/// Compiles a NUL-terminated pattern: the pattern text is everything before
/// the first NUL byte.  Failures are reported as in
/// [`rure_compile_options`].
pub fn rure_compile(pattern: &[u8], error: &mut Error) -> (r: Option<Pattern>)
    requires
        old(error).wf(),
    ensures
        final(error).wf(),
        (r is Some) <==> (valid_utf8(c_prefix(pattern@)) && engine_accepts(c_prefix(pattern@))),
        (r matches Some(re) ==> re.wf() && re.pat() == c_prefix(pattern@) && final(error).state()
            == ErrState::NoErr),
        !valid_utf8(c_prefix(pattern@)) ==> final(error).state() == (ErrState::Decode {
            pos: utf8_frontier(c_prefix(pattern@)),
        }),
        (valid_utf8(c_prefix(pattern@)) && !engine_accepts(c_prefix(pattern@)))
            ==> final(error).state() == (ErrState::Compile {
            msg: engine_reject_text(c_prefix(pattern@)),
        }) && reject_shape(engine_reject_text(c_prefix(pattern@))),
{
    let n = pattern.len();
    let mut i: usize = 0;
    while i < n && pattern[i] != 0
        invariant
            i <= n == pattern@.len(),
            forall|j: int| 0 <= j < i ==> pattern@[j] != 0,
        decreases n - i,
    {
        i = i + 1;
    }
    proof {
        lemma_zero_cut_at(pattern@, i as int);
    }
    let pat = &pattern[0..i];
    proof {
        assert(pat@ =~= c_prefix(pattern@));
    }
    rure_compile_options(pat, Option::None, error)
}

/// Releases a compiled pattern.  Handles are destroyed exactly once, by
/// their owner; capture buffers and iterators derived from the handle must
/// not be used afterwards.
pub fn rure_free(_re: Pattern) {
}

/// The index a name resolves to in a group-name table: the first group with
/// that name, or -1 when no group has it.
pub open spec fn name_lookup(names: Seq<Option<Seq<u8>>>, name: Seq<u8>) -> int
    decreases names.len(),
{
    if names.len() == 0 {
        -1
    } else if names[0] == Some(name) {
        0
    } else if name_lookup(names.drop_first(), name) == -1 {
        -1
    } else {
        1 + name_lookup(names.drop_first(), name)
    }
}

/// `name_lookup` finds exactly the first index whose entry is the name.
proof fn lemma_name_lookup_at(names: Seq<Option<Seq<u8>>>, name: Seq<u8>, i: int)
    requires
        0 <= i <= names.len(),
        forall|j: int| 0 <= j < i ==> names[j] != Some(name),
        i < names.len() ==> names[i] == Some(name),
    ensures
        name_lookup(names, name) == if i == names.len() {
            -1int
        } else {
            i
        },
    decreases i,
{
    if i > 0 {
        assert(names[0] != Some(name));
        lemma_name_lookup_at(names.drop_first(), name, i - 1);
    }
}

/// Compares two byte strings for equality.
fn bytes_eq(a: &[u8], b: &[u8]) -> (r: bool)
    ensures
        r == (a@ == b@),
{
    if a.len() != b.len() {
        return false;
    }
    let n = a.len();
    let mut i: usize = 0;
    while i < n
        invariant
            i <= n == a@.len() == b@.len(),
            forall|j: int| 0 <= j < i ==> a@[j] == b@[j],
        decreases n - i,
    {
        if a[i] != b[i] {
            return false;
        }
        i = i + 1;
    }
    proof {
        assert(a@ =~= b@);
    }
    true
}

/// The index of the capture group with the given name, or -1 when no group
/// has that name.  Group 0, the whole match, is unnamed and never returned.
pub fn rure_capture_name_index(re: &Pattern, name: &[u8]) -> (r: i32)
    requires
        re.wf(),
    ensures
        ({
            let idx = name_lookup(engine_group_names(re.pat()), name@);
            if 0 <= idx <= i32::MAX {
                r == idx
            } else {
                r == -1
            }
        }),
        r != 0,
{
    let ghost gnames = engine_group_names(re.pat());
    let n = re.names.len();
    let mut i: usize = 0;
    while i < n
        invariant
            re.wf(),
            i <= n == re.names@.len(),
            gnames == engine_group_names(re.pat()),
            forall|j: int| 0 <= j < i ==> gnames[j] != Some(name@),
        decreases n - i,
    {
        let hit = match &re.names[i] {
            Option::Some(nm) => bytes_eq(nm.as_slice(), name),
            Option::None => false,
        };
        proof {
            assert(gnames[i as int] == re.names@[i as int].deep_view());
            match re.names@[i as int] {
                Option::Some(nm) => {
                    assert(nm.deep_view() =~= nm@);
                },
                Option::None => {},
            }
            assert(hit == (gnames[i as int] == Some(name@)));
        }
        if hit {
            proof {
                lemma_name_lookup_at(gnames, name@, i as int);
            }
            if i <= 0x7fffffff {
                return i as i32;
            } else {
                return -1;
            }
        }
        i = i + 1;
    }
    proof {
        lemma_name_lookup_at(gnames, name@, n as int);
    }
    -1
}

/// Whether the pattern matches anywhere in the haystack at or after byte
/// offset `start`.  The offset is a literal scan origin: anchors keep their
/// meaning relative to the true start of the haystack.
pub fn rure_is_match(re: &Pattern, haystack: &[u8], start: usize) -> (r: bool)
    requires
        start <= haystack@.len(),
    ensures
        r == match_at(re.pat(), haystack@, start as int),
{
    engine::is_match_at(re.engine_ref(), haystack, start)
}

/// Finds the leftmost match at or after byte offset `start`; on success
/// writes its half-open byte span into `match_info` and returns true.  On no
/// match returns false and leaves `match_info` untouched.
pub fn rure_find(re: &Pattern, haystack: &[u8], start: usize, match_info: &mut rure_match) -> (r:
    bool)
    requires
        start <= haystack@.len(),
    ensures
        r == match_at(re.pat(), haystack@, start as int),
        (r ==> find_model(re.pat(), haystack@, start as int) == Some(
            (final(match_info).start as int, final(match_info).end as int),
        )),
        (r ==> start <= final(match_info).start <= final(match_info).end <= haystack@.len()),
        (!r ==> *final(match_info) == *old(match_info)),
{
    match engine::find_at(re.engine_ref(), haystack, start) {
        Option::Some((s, e)) => {
            match_info.start = s;
            match_info.end = e;
            true
        },
        Option::None => false,
    }
}

/// The same search as [`rure_find`], but on success also fills every capture
/// group's slots in the given buffer, which must have been created for this
/// pattern.  On no match the buffer is left untouched.
pub fn rure_find_captures(
    re: &Pattern,
    haystack: &[u8],
    start: usize,
    captures: &mut Captures,
) -> (r: bool)
    requires
        start <= haystack@.len(),
        old(captures).compatible(re.pat()),
    ensures
        r == match_at(re.pat(), haystack@, start as int),
        final(captures).compatible(re.pat()),
        (r ==> final(captures).slots() == engine_slots(re.pat(), haystack@, start as int)),
        (r ==> ({
            let m = find_model(re.pat(), haystack@, start as int);
            m matches Some((s, e)) && final(captures).slots()[0] == Some(s as usize)
                && final(captures).slots()[1] == Some(e as usize)
        })),
        (!r ==> *final(captures) == *old(captures)),
{
    match engine::captures_at(re.engine_ref(), haystack, start) {
        Option::Some(t) => {
            captures.set_slots(t.2);
            true
        },
        Option::None => false,
    }
}

/// `rure_is_match` and `rure_find` answer over the same model: a pattern
/// matches at an offset exactly when a find from that offset reports a
/// match.
pub proof fn lemma_is_match_iff_find(pat: Seq<u8>, hay: Seq<u8>, start: int)
    ensures
        match_at(pat, hay, start) <==> (find_model(pat, hay, start) is Some),
{
}

/// A find never reports a match that begins before the requested offset or
/// ends past the haystack.
pub proof fn lemma_find_from_offset(pat: Seq<u8>, hay: Seq<u8>, start: int)
    ensures
        find_model(pat, hay, start) matches Some((s, e)) ==> start <= s <= e <= hay.len(),
{
}

} // verus!
