//! A single text row: raw characters plus a tab-expanded render cache.
//!
//! The render cache is a pure function of the raw content: every tab
//! expands to spaces up to the next multiple of the tab stop (always at
//! least one space), every other character passes through unchanged.  It
//! is recomputed in full after each mutation, never patched.

use vstd::prelude::*;
use crate::strutil::push_char;

verus! {

/// Width of one tab stop in rendered columns.
pub const TAB_STOP: usize = 8;

/// A run of `n` spaces.
pub open spec fn spaces(n: nat) -> Seq<char> {
    Seq::new(n, |i: int| ' ')
}

/// How many spaces a tab starting at rendered column `col` expands to.
pub open spec fn tab_pad(col: nat) -> nat {
    (8 - col % 8) as nat
}

/// One step of tab expansion: the rendered text after appending `c` to a
/// row whose rendered text so far is `acc`.
pub open spec fn render_step(acc: Seq<char>, c: char) -> Seq<char> {
    if c == '\t' {
        acc + spaces(tab_pad(acc.len()))
    } else {
        acc.push(c)
    }
}

/// The rendered form of the first `n` characters of `raw`.
pub open spec fn render_prefix(raw: Seq<char>, n: int) -> Seq<char>
    decreases n,
{
    if n <= 0 {
        Seq::empty()
    } else {
        render_step(render_prefix(raw, n - 1), raw[n - 1])
    }
}

/// The rendered form of a whole row.
pub open spec fn render_of(raw: Seq<char>) -> Seq<char> {
    render_prefix(raw, raw.len() as int)
}

/// Rendering a longer prefix never shortens the result.
pub proof fn lemma_render_prefix_mono(raw: Seq<char>, a: int, b: int)
    requires
        0 <= a <= b <= raw.len(),
    ensures
        render_prefix(raw, a).len() <= render_prefix(raw, b).len(),
    decreases b,
{
    if a < b {
        lemma_render_prefix_mono(raw, a, b - 1);
        assert(spaces(tab_pad(render_prefix(raw, b - 1).len())).len() >= 1);
    }
}

/// Tab expansion: a tab at logical column `c` lengthens the rendered text
/// by at least one and at most `TAB_STOP` characters, and the text
/// rendered through the tab ends on a rendered-column multiple of the
/// tab stop.
pub proof fn lemma_tab_expansion(raw: Seq<char>, c: int)
    requires
        0 <= c < raw.len(),
        raw[c] == '\t',
    ensures
        render_prefix(raw, c).len() + 1 <= render_prefix(raw, c + 1).len(),
        render_prefix(raw, c + 1).len() <= render_prefix(raw, c).len() + 8,
        render_prefix(raw, c + 1).len() % 8 == 0,
{
    let acc = render_prefix(raw, c);
    assert(render_prefix(raw, c + 1) == acc + spaces(tab_pad(acc.len())));
    assert(render_prefix(raw, c + 1).len() == acc.len() + tab_pad(acc.len()));
}

/// One text row: raw characters and the cached rendered form.
pub struct Row {
    pub raw: Vec<char>,
    pub rendered: String,
}

impl Row {
    /// The cache is exactly the rendered form of the raw content.
    pub open spec fn well_formed(&self) -> bool {
        self.rendered@ == render_of(self.raw@)
    }

    /// A row over the given raw characters, with its cache computed.
    pub fn from_chars(raw: Vec<char>) -> (r: Row)
        ensures
            r.raw == raw,
            r.well_formed(),
    {
        let rendered = render_chars(&raw);
        Row { raw, rendered }
    }
}

/// The tab-expanded rendered form of `raw`.
pub fn render_chars(raw: &Vec<char>) -> (r: String)
    ensures
        r@ == render_of(raw@),
{
    let mut out = String::new();
    let mut col_mod: usize = 0;
    let mut i: usize = 0;
    while i < raw.len()
        invariant
            0 <= i <= raw@.len(),
            out@ == render_prefix(raw@, i as int),
            col_mod == out@.len() % 8,
        decreases raw@.len() - i,
    {
        let c = raw[i];
        let ghost acc = out@;
        if c == '\t' {
            let pad = 8 - col_mod;
            let mut k: usize = 0;
            while k < pad
                invariant
                    0 <= k <= pad,
                    pad == tab_pad(acc.len()),
                    out@ == acc + spaces(k as nat),
                decreases pad - k,
            {
                push_char(&mut out, ' ');
                proof {
                    assert((acc + spaces(k as nat)).push(' ') =~= acc + spaces(
                        (k + 1) as nat,
                    ));
                }
                k = k + 1;
            }
            col_mod = 0;
            proof {
                assert(out@ == render_step(acc, '\t'));
                assert(out@.len() % 8 == 0);
            }
        } else {
            push_char(&mut out, c);
            col_mod = if col_mod == 7 {
                0
            } else {
                col_mod + 1
            };
        }
        proof {
            assert(out@ == render_prefix(raw@, i as int + 1));
        }
        i = i + 1;
    }
    out
}

} // verus!
