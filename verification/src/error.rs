//! The reusable error cell that fallible operations fill.
//!
//! A cell holds at most one diagnostic — no error, a decode failure with the
//! byte offset where UTF-8 decoding stopped, or the engine's compile
//! diagnostic — and renders it to text on demand, caching the rendering until
//! the state next changes.  A rendering never contains a NUL character: where
//! the engine's diagnostic embeds one (a pattern echoed back may), the text is
//! cut short at the first NUL instead.

use crate::engine::reject_shape;
use vstd::prelude::*;
use vstd::string::StrSliceExecFns;
use vstd::string::StringExecFns;

verus! {

/// The diagnostic state of an [`Error`] cell, as contracts see it.
pub enum ErrState {
    /// No fallible operation has failed since the cell was created or last
    /// overwritten.
    NoErr,
    /// The pattern bytes were not valid UTF-8; `pos` is the byte offset of
    /// the first invalid or incomplete scalar encoding.
    Decode { pos: int },
    /// The engine refused the pattern; `msg` is its diagnostic text.
    Compile { msg: Seq<char> },
}

enum ErrorKind {
    NoError,
    Decode(usize),
    Compile(String),
}

/// A mutable, reusable diagnostic cell.  Fallible operations overwrite it;
/// [`rure_error_message`] renders its state as text.
pub struct Error {
    kind: ErrorKind,
    message: Option<String>,
}

/// True when `s` contains no NUL character.
pub open spec fn no_nul(s: Seq<char>) -> bool {
    forall|i: int| 0 <= i < s.len() ==> s[i] != '\0'
}

/// The decimal digit for a value between 0 and 9.
pub open spec fn digit_char(d: int) -> char
    recommends
        0 <= d <= 9,
{
    if d == 0 {
        '0'
    } else if d == 1 {
        '1'
    } else if d == 2 {
        '2'
    } else if d == 3 {
        '3'
    } else if d == 4 {
        '4'
    } else if d == 5 {
        '5'
    } else if d == 6 {
        '6'
    } else if d == 7 {
        '7'
    } else if d == 8 {
        '8'
    } else {
        '9'
    }
}

/// The decimal rendering of a non-negative number, most significant digit
/// first.
pub open spec fn dec_digits(n: int) -> Seq<char>
    recommends
        n >= 0,
    decreases n,
{
    if n < 10 {
        seq![digit_char(n)]
    } else {
        dec_digits(n / 10).push(digit_char(n % 10))
    }
}

/// The position of the first NUL character in `s`, or `s.len()` when there is
/// none.
pub open spec fn nul_cut(s: Seq<char>) -> int
    decreases s.len(),
{
    if s.len() == 0 {
        0
    } else if s[0] == '\0' {
        0
    } else {
        1 + nul_cut(s.drop_first())
    }
}

/// `s` cut short just before its first NUL character.
pub open spec fn cut_at_nul(s: Seq<char>) -> Seq<char> {
    s.take(nul_cut(s))
}

/// How an [`Error`] cell's state renders as text.
pub open spec fn render_spec(st: ErrState) -> Seq<char> {
    match st {
        ErrState::NoErr => "no error"@,
        ErrState::Decode { pos } => "invalid utf-8 in pattern at byte "@ + dec_digits(pos),
        ErrState::Compile { msg } => cut_at_nul(msg),
    }
}

spec fn kind_state(k: ErrorKind) -> ErrState {
    match k {
        ErrorKind::NoError => ErrState::NoErr,
        ErrorKind::Decode(p) => ErrState::Decode { pos: p as int },
        ErrorKind::Compile(m) => ErrState::Compile { msg: m@ },
    }
}

impl Error {
    /// The diagnostic the cell currently holds.
    pub closed spec fn state(&self) -> ErrState {
        kind_state(self.kind)
    }

    /// The cached rendering, when present, is the rendering of the current
    /// state.
    pub closed spec fn wf(&self) -> bool {
        match self.message {
            Some(m) => m@ == render_spec(self.state()),
            None => true,
        }
    }

    /// Overwrites the cell with the no-error state.
    pub(crate) fn clear(&mut self)
        ensures
            final(self).wf(),
            final(self).state() == ErrState::NoErr,
    {
        self.kind = ErrorKind::NoError;
        self.message = Option::None;
    }

    /// Overwrites the cell with a decode failure at byte offset `pos`.
    pub(crate) fn set_decode(&mut self, pos: usize)
        ensures
            final(self).wf(),
            final(self).state() == (ErrState::Decode { pos: pos as int }),
    {
        self.kind = ErrorKind::Decode(pos);
        self.message = Option::None;
    }

    /// Overwrites the cell with the engine's compile diagnostic.
    pub(crate) fn set_compile(&mut self, msg: String)
        ensures
            final(self).wf(),
            final(self).state() == (ErrState::Compile { msg: msg@ }),
    {
        self.kind = ErrorKind::Compile(msg);
        self.message = Option::None;
    }
}

/// Creates an empty error cell.
pub fn rure_error_new() -> (r: Error)
    ensures
        r.wf(),
        r.state() == ErrState::NoErr,
{
    Error { kind: ErrorKind::NoError, message: Option::None }
}

/// Releases an error cell.  Handles are destroyed exactly once, by their
/// owner.
pub fn rure_error_free(_err: Error) {
}

/// Renders the cell's current diagnostic as text: `"no error"` for the empty
/// state, the decode offset for a decode failure, and the engine's diagnostic
/// — cut short at its first NUL character — for a compile failure.  The
/// rendering is cached until the state next changes.
pub fn rure_error_message(error: &mut Error) -> (r: String)
    requires
        old(error).wf(),
    ensures
        final(error).wf(),
        final(error).state() == old(error).state(),
        r@ == render_spec(old(error).state()),
        no_nul(r@),
{
    if error.message.is_none() {
        let m = render_kind(&error.kind);
        error.message = Option::Some(m);
    }
    proof {
        lemma_render_no_nul(error.state());
    }
    match &error.message {
        Option::Some(m) => m.clone(),
        Option::None => {
            proof {
                assert(false);
            }
            String::new()
        },
    }
}

/// Renders a diagnostic state as text.
fn render_kind(kind: &ErrorKind) -> (r: String)
    ensures
        r@ == render_spec(kind_state(*kind)),
{
    match kind {
        ErrorKind::NoError => String::from_str("no error"),
        ErrorKind::Decode(pos) => {
            let mut s = String::from_str("invalid utf-8 in pattern at byte ");
            push_decimal(&mut s, *pos);
            s
        },
        ErrorKind::Compile(msg) => cut_string_at_nul(msg),
    }
}

/// Appends the decimal rendering of `n`.
fn push_decimal(out: &mut String, n: usize)
    ensures
        final(out)@ == old(out)@ + dec_digits(n as int),
    decreases n,
{
    if n >= 10 {
        push_decimal(out, n / 10);
    }
    let d = n % 10;
    match d {
        0 => out.append("0"),
        1 => out.append("1"),
        2 => out.append("2"),
        3 => out.append("3"),
        4 => out.append("4"),
        5 => out.append("5"),
        6 => out.append("6"),
        7 => out.append("7"),
        8 => out.append("8"),
        _ => out.append("9"),
    }
    proof {
        reveal_strlit("0");
        reveal_strlit("1");
        reveal_strlit("2");
        reveal_strlit("3");
        reveal_strlit("4");
        reveal_strlit("5");
        reveal_strlit("6");
        reveal_strlit("7");
        reveal_strlit("8");
        reveal_strlit("9");
        assert(out@ =~= old(out)@ + dec_digits(n as int));
    }
}

/// Copies `msg` up to, and not including, its first NUL character.
fn cut_string_at_nul(msg: &String) -> (r: String)
    ensures
        r@ == cut_at_nul(msg@),
{
    let n = msg.as_str().unicode_len();
    let mut i: usize = 0;
    while i < n && msg.as_str().get_char(i) != '\0'
        invariant
            i <= n == msg@.len(),
            forall|j: int| 0 <= j < i ==> msg@[j] != '\0',
        decreases n - i,
    {
        i = i + 1;
    }
    proof {
        lemma_nul_cut_at(msg@, i as int);
    }
    let t = msg.as_str().substring_char(0, i);
    String::from_str(t)
}

/// `nul_cut` is exactly the position of the first NUL character.
proof fn lemma_nul_cut_at(s: Seq<char>, i: int)
    requires
        0 <= i <= s.len(),
        forall|j: int| 0 <= j < i ==> s[j] != '\0',
        i < s.len() ==> s[i] == '\0',
    ensures
        nul_cut(s) == i,
    decreases i,
{
    if i > 0 {
        assert(s[0] != '\0');
        lemma_nul_cut_at(s.drop_first(), i - 1);
    }
}

/// Bounds on `nul_cut`: it never passes the first NUL character and every
/// character before it is not NUL.
proof fn lemma_nul_cut_props(s: Seq<char>)
    ensures
        0 <= nul_cut(s) <= s.len(),
        forall|j: int| 0 <= j < nul_cut(s) ==> s[j] != '\0',
    decreases s.len(),
{
    if s.len() > 0 && s[0] != '\0' {
        lemma_nul_cut_props(s.drop_first());
        assert forall|j: int| 0 <= j < nul_cut(s) implies s[j] != '\0' by {
            if j > 0 {
                assert(s[j] == s.drop_first()[j - 1]);
            }
        }
    }
}

/// No digit is a NUL character.
proof fn lemma_dec_digits_no_nul(n: int)
    ensures
        no_nul(dec_digits(n)),
    decreases n,
{
    if n >= 10 {
        lemma_dec_digits_no_nul(n / 10);
    }
}

/// The rendering names the state: it is never empty, and it reads `no error`
/// exactly when the cell holds no diagnostic.  For a compile state this rests
/// on the shape of the engine's rejection text, which every cell filled by
/// compilation has.
pub proof fn lemma_rendering_names_the_state(st: ErrState)
    requires
        (st matches ErrState::Compile { msg } ==> reject_shape(msg)),
        (st matches ErrState::Decode { pos } ==> pos >= 0),
    ensures
        render_spec(st).len() > 0,
        (render_spec(st) == "no error"@) <==> (st is NoErr),
{
    reveal_strlit("no error");
    match st {
        ErrState::NoErr => {},
        ErrState::Decode { pos } => {
            reveal_strlit("invalid utf-8 in pattern at byte ");
            assert(render_spec(st)[0] == 'i');
            assert(render_spec(st) != "no error"@);
        },
        ErrState::Compile { msg } => {
            lemma_nul_cut_props(msg.drop_first());
            assert(nul_cut(msg) >= 1);
            lemma_nul_cut_props(msg);
            assert(render_spec(st)[0] == msg[0]);
            if render_spec(st) == "no error"@ {
                assert(render_spec(st).len() == 8);
                assert("no error"@.is_prefix_of(msg)) by {
                    assert(msg.subrange(0, 8) =~= render_spec(st));
                }
            }
        },
    }
}

/// What a cell renders never contains a NUL character.
proof fn lemma_render_no_nul(st: ErrState)
    ensures
        no_nul(render_spec(st)),
{
    match st {
        ErrState::NoErr => {
            reveal_strlit("no error");
        },
        ErrState::Decode { pos } => {
            reveal_strlit("invalid utf-8 in pattern at byte ");
            lemma_dec_digits_no_nul(pos);
        },
        ErrState::Compile { msg } => {
            lemma_nul_cut_props(msg);
        },
    }
}

} // verus!

