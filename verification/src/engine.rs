//! The trusted boundary to the backing pattern engine.
//!
//! Everything the rest of the crate knows about the engine is stated here,
//! over uninterpreted names that stand for what the engine computes from the
//! pattern text alone.  Each wrapper's contract records only what the engine's
//! documentation promises of the call it makes.

use vstd::prelude::*;
use vstd::utf8::valid_utf8;

verus! {

#[verifier::external_type_specification]
#[verifier::external_body]
pub struct ExRegex(regex::bytes::Regex);

/// A compiled engine instance paired with the pattern text it was compiled
/// from.  [`compile`] is the only constructor and stores the very bytes it
/// handed to the engine, so the contracts of the query wrappers below may
/// speak of `pat()` while the bodies use the engine value.
pub struct Engine {
    re: regex::bytes::Regex,
    pattern: Vec<u8>,
}

impl Engine {
    /// The pattern text this engine instance was compiled from.
    pub closed spec fn pat(&self) -> Seq<u8> {
        self.pattern@
    }
}

/// Whether the engine accepts the given pattern text.
pub uninterp spec fn engine_accepts(pat: Seq<u8>) -> bool;

/// The engine's rendered diagnostic for a pattern text it rejects.
pub uninterp spec fn engine_reject_text(pat: Seq<u8>) -> Seq<char>;

/// The leftmost match the engine reports for `pat` in `hay` when the search
/// starts at byte offset `start`, as a half-open offset pair.
pub uninterp spec fn engine_search(pat: Seq<u8>, hay: Seq<u8>, start: int) -> Option<(usize, usize)>;

/// The capture slots the engine reports for the match found by
/// `engine_search(pat, hay, start)`: slots `2*i` and `2*i + 1` hold the start
/// and end offsets of group `i`, or `None` where the group did not take part.
pub uninterp spec fn engine_slots(pat: Seq<u8>, hay: Seq<u8>, start: int) -> Seq<Option<usize>>;

/// The number of capture groups of the given pattern, group 0 (the whole
/// match) included.
pub uninterp spec fn engine_group_count(pat: Seq<u8>) -> usize;

/// The names of the pattern's capture groups in index order, `None` for the
/// unnamed ones.
pub uninterp spec fn engine_group_names(pat: Seq<u8>) -> Seq<Option<Seq<u8>>>;

/// `engine_search` restricted to well-formed outcomes: a reported match lies
/// inside the haystack and never before the requested start offset.  All
/// contracts of this crate are stated over this view of the engine.
pub open spec fn find_model(pat: Seq<u8>, hay: Seq<u8>, start: int) -> Option<(int, int)> {
    match engine_search(pat, hay, start) {
        Some(m) => if start <= m.0 <= m.1 <= hay.len() {
            Some((m.0 as int, m.1 as int))
        } else {
            None
        },
        None => None,
    }
}

/// Whether the pattern matches somewhere in the haystack at or after `start`.
pub open spec fn match_at(pat: Seq<u8>, hay: Seq<u8>, start: int) -> bool {
    find_model(pat, hay, start) is Some
}

/// The shape every rejection rendering of the engine has, as its source
/// shows: each diagnostic is a parse-error report, the size-limit message, or
/// a build-error note, so it is never empty, never begins with a NUL
/// character, and never begins with the text `no error`.
pub open spec fn reject_shape(msg: Seq<char>) -> bool {
    &&& msg.len() > 0
    &&& msg[0] != '\0'
    &&& !"no error"@.is_prefix_of(msg)
}

/// Relies on `regex::bytes::Regex::new`: compilation succeeds or fails on the
/// pattern text alone, and a failure's rendering (`Error` through `Display`)
/// is a parse-error report (`regex parse error: ...`), the size-limit message
/// (`Compiled regex exceeds size limit ...`), or a build-error note (`error
/// parsing pattern ...`, `error building NFA`) — see [`reject_shape`].  The
/// pattern bytes must be valid UTF-8.
#[verifier::external_body]
pub(crate) fn compile(pattern: &[u8]) -> (r: Result<Engine, String>)
    requires
        valid_utf8(pattern@),
    ensures
        (r is Ok) == engine_accepts(pattern@),
        (r matches Ok(eng) ==> eng.pat() == pattern@),
        (r matches Err(msg) ==> msg@ == engine_reject_text(pattern@) && reject_shape(msg@)),
{
    match core::str::from_utf8(pattern) {
        Ok(pat) => match regex::bytes::Regex::new(pat) {
            Ok(re) => Ok(Engine { re, pattern: pattern.to_vec() }),
            Err(err) => Err(err.to_string()),
        },
        // The requires rules this out: the bytes are valid UTF-8.
        Err(_) => Err(String::new()),
    }
}

/// Relies on `regex::bytes::Regex::is_match_at`: true exactly when `find_at`
/// from the same offset would report a match, and any match `find_at` reports
/// lies inside the haystack at or after the offset.  Panics when
/// `start > haystack.len()`, which the requires rules out.
#[verifier::external_body]
pub(crate) fn is_match_at(eng: &Engine, haystack: &[u8], start: usize) -> (r: bool)
    requires
        start <= haystack@.len(),
    ensures
        r == match_at(eng.pat(), haystack@, start as int),
{
    eng.re.is_match_at(haystack, start)
}

/// Relies on `regex::bytes::Regex::find_at`: reports the leftmost match at or
/// after `start` as offsets into the haystack with `start <= s <= e <= len`.
/// Panics when `start > haystack.len()`, which the requires rules out.
#[verifier::external_body]
pub(crate) fn find_at(eng: &Engine, haystack: &[u8], start: usize) -> (r: Option<(usize, usize)>)
    requires
        start <= haystack@.len(),
    ensures
        r == engine_search(eng.pat(), haystack@, start as int),
        (r matches Some(m) ==> start <= m.0 <= m.1 <= haystack@.len()),
{
    eng.re.find_at(haystack, start).map(|m| (m.start(), m.end()))
}

/// Relies on `regex::bytes::Regex::captures_read_at` and
/// `CaptureLocations::get`: the overall match is the one `find_at` reports,
/// the slot list has two entries per capture group, and group 0 is the whole
/// match.  Panics when `start > haystack.len()`, which the requires rules out.
#[verifier::external_body]
pub(crate) fn captures_at(eng: &Engine, haystack: &[u8], start: usize) -> (r: Option<
    (usize, usize, Vec<Option<usize>>),
>)
    requires
        start <= haystack@.len(),
    ensures
        (r is Some) == (engine_search(eng.pat(), haystack@, start as int) is Some),
        (r matches Some(t) ==> {
            &&& Some((t.0, t.1)) == engine_search(eng.pat(), haystack@, start as int)
            &&& start <= t.0 <= t.1 <= haystack@.len()
            &&& t.2@ == engine_slots(eng.pat(), haystack@, start as int)
            &&& t.2@.len() == 2 * engine_group_count(eng.pat())
            &&& t.2@[0] == Some(t.0) && t.2@[1] == Some(t.1)
        }),
{
    let mut locs = eng.re.capture_locations();
    let m = eng.re.captures_read_at(&mut locs, haystack, start)?;
    let mut slots = Vec::new();
    for i in 0..locs.len() {
        let (s, e) = match locs.get(i) {
            Some(p) => (Some(p.0), Some(p.1)),
            None => (None, None),
        };
        slots.push(s);
        slots.push(e);
    }
    Some((m.start(), m.end(), slots))
}

/// Relies on `regex::bytes::Regex::captures_len`: the number of capture
/// groups, which is at least 1 because group 0 is always present.
#[verifier::external_body]
pub(crate) fn captures_len(eng: &Engine) -> (r: usize)
    ensures
        r == engine_group_count(eng.pat()),
        r >= 1,
{
    eng.re.captures_len()
}

/// Relies on `regex::bytes::Regex::capture_names`: one entry per capture
/// group in index order, as many as `captures_len` reports, and the first
/// entry is the unnamed implicit group for the whole match.
#[verifier::external_body]
pub(crate) fn capture_names(eng: &Engine) -> (r: Vec<Option<Vec<u8>>>)
    ensures
        r.deep_view() == engine_group_names(eng.pat()),
        r@.len() == engine_group_count(eng.pat()),
        r@.len() >= 1,
        r@[0] is None,
{
    eng.re.capture_names().map(|n| n.map(|s| s.as_bytes().to_vec())).collect()
}

} // verus!
