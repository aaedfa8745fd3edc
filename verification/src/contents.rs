//! The frame buffer: display directives accumulated for one batched write.
//!
//! A frame is a sequence of directives — cursor movement, visibility,
//! erase, video attributes, raw text.  Text is gathered character by
//! character into a pending run and becomes a single `Text` directive
//! when the next non-text directive is queued, so a frame never exposes
//! a partially built text run.

use vstd::prelude::*;
use crate::strutil::push_char;
use crate::row::spaces;
use vstd::string::StringExecFns;

verus! {

/// One display directive for the output sink, in the order emitted.
#[derive(Debug, Clone, PartialEq, Eq)]
pub enum Directive {
    /// Place the cursor at (column, row), zero-based screen cells.
    MoveTo(usize, usize),
    HideCursor,
    ShowCursor,
    /// Erase from the cursor to the end of the line.
    EraseToEol,
    ReverseVideo,
    ResetVideo,
    /// Write this text at the cursor.
    Text(String),
}

/// The mathematical shape of a directive.
pub enum DirSpec {
    MoveTo(int, int),
    HideCursor,
    ShowCursor,
    EraseToEol,
    ReverseVideo,
    ResetVideo,
    Text(Seq<char>),
}

impl View for Directive {
    type V = DirSpec;

    open spec fn view(&self) -> DirSpec {
        match self {
            Directive::MoveTo(x, y) => DirSpec::MoveTo(*x as int, *y as int),
            Directive::HideCursor => DirSpec::HideCursor,
            Directive::ShowCursor => DirSpec::ShowCursor,
            Directive::EraseToEol => DirSpec::EraseToEol,
            Directive::ReverseVideo => DirSpec::ReverseVideo,
            Directive::ResetVideo => DirSpec::ResetVideo,
            Directive::Text(s) => DirSpec::Text(s@),
        }
    }
}

/// The views of a sequence of directives.
pub open spec fn dir_views(v: Seq<Directive>) -> Seq<DirSpec> {
    v.map_values(|d: Directive| d@)
}

/// The directives a finished text run contributes: none when it is empty.
pub open spec fn text_part(t: Seq<char>) -> Seq<DirSpec> {
    if t.len() == 0 {
        Seq::empty()
    } else {
        seq![DirSpec::Text(t)]
    }
}

/// Directives already queued plus the pending text run.
pub struct EditorContents {
    pub content: String,
    pub parts: Vec<Directive>,
}

impl EditorContents {
    /// The directives queued so far.
    pub open spec fn out(&self) -> Seq<DirSpec> {
        dir_views(self.parts@)
    }

    /// An empty frame.
    pub fn new() -> (r: EditorContents)
        ensures
            r.content@ == Seq::<char>::empty(),
            r.out() == Seq::<DirSpec>::empty(),
            r.parts@.len() == 0,
    {
        let r = EditorContents { content: String::new(), parts: Vec::new() };
        proof {
            assert(r.out() =~= Seq::<DirSpec>::empty());
        }
        r
    }

    /// Appends one character to the pending text run.
    pub fn push(&mut self, c: char)
        ensures
            final(self).content@ == old(self).content@.push(c),
            final(self).parts == old(self).parts,
    {
        push_char(&mut self.content, c);
    }

    /// Appends a string to the pending text run.
    pub fn push_str(&mut self, s: &str)
        ensures
            final(self).content@ == old(self).content@ + s@,
            final(self).parts == old(self).parts,
    {
        self.content.append(s);
    }

    /// Appends `k` spaces to the pending text run.
    pub fn push_spaces(&mut self, k: usize)
        ensures
            final(self).content@ == old(self).content@ + spaces(k as nat),
            final(self).parts == old(self).parts,
    {
        let mut i: usize = 0;
        while i < k
            invariant
                0 <= i <= k,
                self.content@ == old(self).content@ + spaces(i as nat),
                self.parts == old(self).parts,
            decreases k - i,
        {
            self.push(' ');
            proof {
                assert((old(self).content@ + spaces(i as nat)).push(' ')
                    =~= old(self).content@ + spaces(i as nat + 1));
            }
            i = i + 1;
        }
    }

    /// Turns a nonempty pending run into a `Text` directive.
    pub fn flush_text(&mut self)
        ensures
            final(self).content@ == Seq::<char>::empty(),
            final(self).out() == old(self).out() + text_part(old(self).content@),
    {
        if !self.content.as_str().is_empty() {
            let mut t = String::new();
            core::mem::swap(&mut t, &mut self.content);
            let ghost prev = self.out();
            self.parts.push(Directive::Text(t));
            proof {
                assert(self.out() =~= prev + text_part(old(self).content@));
            }
        } else {
            proof {
                assert(self.out() =~= self.out() + text_part(self.content@));
            }
        }
    }

    /// Finishes the pending run, then queues `d`.
    pub fn queue(&mut self, d: Directive)
        ensures
            final(self).content@ == Seq::<char>::empty(),
            final(self).out() == old(self).out() + text_part(old(self).content@) + seq![d@],
    {
        self.flush_text();
        let ghost prev = self.out();
        self.parts.push(d);
        proof {
            assert(self.out() =~= prev + seq![d@]);
        }
    }
}

} // verus!
