//! The row store: an ordered sequence of rows plus the associated file name.
//!
//! Every mutation re-derives the changed row's render cache, so the cache
//! invariant (`well_formed`) holds after each operation.

use vstd::prelude::*;
use crate::keys::EditorError;
use crate::row::Row;
use crate::row::render_chars;
use crate::row::render_of;
use crate::strutil::chars_string;
use crate::strutil::push_char;
use crate::strutil::str_chars;
use crate::text::join_lines;
use crate::text::line_views;

verus! {

/// The raw contents of a sequence of rows.
pub open spec fn raw_views(rows: Seq<Row>) -> Seq<Seq<char>> {
    rows.map_values(|r: Row| r.raw@)
}

/// Raw contents after a character insert into one row.
pub open spec fn row_insert(raws: Seq<Seq<char>>, at: int, column: int, c: char) -> Seq<
    Seq<char>,
> {
    raws.update(at, raws[at].insert(column, c))
}

/// Raw contents after a character delete from one row.
pub open spec fn row_delete(raws: Seq<Seq<char>>, at: int, column: int) -> Seq<Seq<char>> {
    raws.update(at, raws[at].remove(column))
}

/// Raw contents after a row split (a line break inserted at `column`).
pub open spec fn rows_split(raws: Seq<Seq<char>>, at: int, column: int) -> Seq<Seq<char>> {
    raws.update(at, raws[at].take(column)).insert(at + 1, raws[at].skip(column))
}

/// Raw contents after row `at` is joined onto the row above it.
pub open spec fn rows_join(raws: Seq<Seq<char>>, at: int) -> Seq<Seq<char>> {
    raws.update(at - 1, raws[at - 1] + raws[at]).remove(at)
}

/// Splitting a row and immediately joining the two halves is the identity.
pub proof fn lemma_split_join_inverse(raws: Seq<Seq<char>>, at: int, column: int)
    requires
        0 <= at < raws.len(),
        0 <= column <= raws[at].len(),
    ensures
        rows_join(rows_split(raws, at, column), at + 1) == raws,
{
    let s = rows_split(raws, at, column);
    assert(s[at] == raws[at].take(column));
    assert(s[at + 1] == raws[at].skip(column));
    assert(raws[at].take(column) + raws[at].skip(column) =~= raws[at]);
    assert(rows_join(s, at + 1) =~~= raws);
}

/// The ordered rows of the buffer and its optional file name.
pub struct EditorRows {
    pub rows: Vec<Row>,
    pub filename: Option<String>,
}

impl EditorRows {
    /// The raw text of every row, in order.
    pub open spec fn raws(&self) -> Seq<Seq<char>> {
        raw_views(self.rows@)
    }

    /// Every row's render cache matches its raw content.
    pub open spec fn well_formed(&self) -> bool {
        forall|i: int|
            0 <= i < self.rows@.len() ==> (#[trigger] self.rows@[i]).well_formed()
    }

    /// An empty, unnamed buffer.
    pub fn new() -> (r: EditorRows)
        ensures
            r.raws() == Seq::<Seq<char>>::empty(),
            r.filename is None,
            r.well_formed(),
    {
        let r = EditorRows { rows: Vec::new(), filename: None };
        proof {
            assert(r.raws() =~= Seq::<Seq<char>>::empty());
        }
        r
    }

    /// A buffer holding one row per input line, caches computed.
    pub fn load(lines: Vec<String>, filename: Option<String>) -> (r: EditorRows)
        ensures
            r.raws() == line_views(lines@),
            r.filename == filename,
            r.well_formed(),
    {
        let mut rows: Vec<Row> = Vec::new();
        let mut i: usize = 0;
        while i < lines.len()
            invariant
                0 <= i <= lines@.len(),
                raw_views(rows@) == line_views(lines@.take(i as int)),
                forall|j: int| 0 <= j < rows@.len() ==> (#[trigger] rows@[j]).well_formed(),
            decreases lines@.len() - i,
        {
            let ghost prev = raw_views(rows@);
            let raw = str_chars(lines[i].as_str());
            rows.push(Row::from_chars(raw));
            proof {
                assert(raw_views(rows@) =~= prev.push(lines@[i as int]@));
                assert(line_views(lines@.take(i as int + 1)) =~= line_views(
                    lines@.take(i as int),
                ).push(lines@[i as int]@));
            }
            i = i + 1;
        }
        proof {
            assert(lines@.take(lines@.len() as int) =~= lines@);
        }
        EditorRows { rows, filename }
    }

    /// How many rows the buffer holds.
    pub fn number_of_rows(&self) -> (n: usize)
        ensures
            n == self.raws().len(),
    {
        self.rows.len()
    }

    /// The row at `at`; the caller answers for the bound.
    pub fn get_row(&self, at: usize) -> (r: &Row)
        requires
            at < self.raws().len(),
        ensures
            *r == self.rows@[at as int],
    {
        &self.rows[at]
    }

    /// The raw content of row `at`, or `IndexError` past the end.
    pub fn raw(&self, at: usize) -> (r: Result<&Vec<char>, EditorError>)
        ensures
            if at < self.raws().len() {
                r is Ok && r->Ok_0@ == self.raws()[at as int]
            } else {
                r == Err::<&Vec<char>, EditorError>(EditorError::IndexError)
            },
    {
        if at < self.rows.len() {
            Ok(&self.rows[at].raw)
        } else {
            Err(EditorError::IndexError)
        }
    }

    /// The rendered content of row `at`, or `IndexError` past the end.
    ///
    /// On a well-formed store the result equals the expansion re-derived
    /// from the raw content, which is the render-cache coherence property.
    pub fn rendered(&self, at: usize) -> (r: Result<&String, EditorError>)
        requires
            self.well_formed(),
        ensures
            if at < self.raws().len() {
                r is Ok && r->Ok_0@ == render_of(self.raws()[at as int])
            } else {
                r == Err::<&String, EditorError>(EditorError::IndexError)
            },
    {
        if at < self.rows.len() {
            Ok(&self.rows[at].rendered)
        } else {
            Err(EditorError::IndexError)
        }
    }

    /// Inserts `c` into row `at` at `column` and re-renders that row.
    pub fn insert_char(&mut self, at: usize, column: usize, c: char) -> (r: Result<
        (),
        EditorError,
    >)
        requires
            old(self).well_formed(),
        ensures
            final(self).well_formed(),
            final(self).filename == old(self).filename,
            if at < old(self).raws().len() && column <= old(self).raws()[at as int].len() {
                r is Ok && final(self).raws() == row_insert(
                    old(self).raws(),
                    at as int,
                    column as int,
                    c,
                )
            } else {
                r == Err::<(), EditorError>(EditorError::IndexError) && *final(self) == *old(
                    self,
                )
            },
    {
        if at >= self.rows.len() {
            return Err(EditorError::IndexError);
        }
        if column > self.rows[at].raw.len() {
            return Err(EditorError::IndexError);
        }
        let ghost prev = self.rows@;
        let mut row = self.rows.remove(at);
        row.raw.insert(column, c);
        row.rendered = render_chars(&row.raw);
        self.rows.insert(at, row);
        proof {
            assert(self.rows@ =~= prev.update(at as int, self.rows@[at as int]));
            assert(final(self).raws() =~= row_insert(
                raw_views(prev),
                at as int,
                column as int,
                c,
            ));
        }
        Ok(())
    }

    /// Deletes the character at `column` of row `at` and re-renders it.
    pub fn delete_char(&mut self, at: usize, column: usize) -> (r: Result<(), EditorError>)
        requires
            old(self).well_formed(),
        ensures
            final(self).well_formed(),
            final(self).filename == old(self).filename,
            if at < old(self).raws().len() && column < old(self).raws()[at as int].len() {
                r is Ok && final(self).raws() == row_delete(
                    old(self).raws(),
                    at as int,
                    column as int,
                )
            } else {
                r == Err::<(), EditorError>(EditorError::IndexError) && *final(self) == *old(
                    self,
                )
            },
    {
        if at >= self.rows.len() {
            return Err(EditorError::IndexError);
        }
        if column >= self.rows[at].raw.len() {
            return Err(EditorError::IndexError);
        }
        let ghost prev = self.rows@;
        let mut row = self.rows.remove(at);
        row.raw.remove(column);
        row.rendered = render_chars(&row.raw);
        self.rows.insert(at, row);
        proof {
            assert(self.rows@ =~= prev.update(at as int, self.rows@[at as int]));
            assert(final(self).raws() =~= row_delete(raw_views(prev), at as int, column as int));
        }
        Ok(())
    }

    /// Appends a fresh row holding `raw` at the end of the buffer.
    pub fn append_row(&mut self, raw: Vec<char>)
        requires
            old(self).well_formed(),
        ensures
            final(self).well_formed(),
            final(self).filename == old(self).filename,
            final(self).raws() == old(self).raws().push(raw@),
    {
        let ghost prev = self.rows@;
        self.rows.push(Row::from_chars(raw));
        proof {
            assert(final(self).raws() =~= raw_views(prev).push(
                self.rows@[prev.len() as int].raw@,
            ));
        }
    }

    /// Splits row `at` at `column`: the row keeps the text left of the
    /// break and a new row with the rest appears right below it.
    pub fn split_row(&mut self, at: usize, column: usize) -> (r: Result<(), EditorError>)
        requires
            old(self).well_formed(),
        ensures
            final(self).well_formed(),
            final(self).filename == old(self).filename,
            if at < old(self).raws().len() && column <= old(self).raws()[at as int].len() {
                r is Ok && final(self).raws() == rows_split(
                    old(self).raws(),
                    at as int,
                    column as int,
                )
            } else {
                r == Err::<(), EditorError>(EditorError::IndexError) && *final(self) == *old(
                    self,
                )
            },
    {
        if at >= self.rows.len() {
            return Err(EditorError::IndexError);
        }
        if column > self.rows[at].raw.len() {
            return Err(EditorError::IndexError);
        }
        let ghost prev = self.rows@;
        let mut row = self.rows.remove(at);
        let tail = row.raw.split_off(column);
        row.rendered = render_chars(&row.raw);
        self.rows.insert(at, row);
        let tail_row = Row::from_chars(tail);
        self.rows.insert(at + 1, tail_row);
        proof {
            assert(self.rows@ =~= prev.update(at as int, self.rows@[at as int]).insert(
                at as int + 1,
                self.rows@[at as int + 1],
            ));
            assert(final(self).raws() =~= rows_split(raw_views(prev), at as int, column as int));
        }
        Ok(())
    }

    /// Joins row `at` onto the row above it: row `at` disappears and its
    /// text is appended to row `at - 1`, whose cache is re-derived.
    pub fn join_row(&mut self, at: usize) -> (r: Result<(), EditorError>)
        requires
            old(self).well_formed(),
        ensures
            final(self).well_formed(),
            final(self).filename == old(self).filename,
            if 1 <= at < old(self).raws().len() {
                r is Ok && final(self).raws() == rows_join(old(self).raws(), at as int)
            } else {
                r == Err::<(), EditorError>(EditorError::IndexError) && *final(self) == *old(
                    self,
                )
            },
    {
        if at == 0 || at >= self.rows.len() {
            return Err(EditorError::IndexError);
        }
        let ghost prev = self.rows@;
        let mut row = self.rows.remove(at);
        let mut above = self.rows.remove(at - 1);
        above.raw.append(&mut row.raw);
        above.rendered = render_chars(&above.raw);
        self.rows.insert(at - 1, above);
        proof {
            assert(self.rows@ =~= prev.update(at as int - 1, self.rows@[at as int - 1]).remove(
                at as int,
            ));
            assert(final(self).raws() =~= rows_join(raw_views(prev), at as int));
        }
        Ok(())
    }

    /// The whole buffer as one text, rows joined by line breaks.
    pub fn to_text(&self) -> (r: String)
        ensures
            r@ == join_lines(self.raws()),
    {
        let mut out = String::new();
        let mut i: usize = 0;
        while i < self.rows.len()
            invariant
                0 <= i <= self.rows@.len(),
                out@ == join_lines(self.raws().take(i as int)),
            decreases self.rows@.len() - i,
        {
            let ghost sofar = out@;
            if i > 0 {
                push_char(&mut out, '\n');
            }
            let line = chars_string(&self.rows[i].raw);
            out.append(line.as_str());
            proof {
                assert(self.raws().take(i as int + 1) =~= self.raws().take(i as int).push(
                    self.raws()[i as int],
                ));
                lemma_join_snoc(self.raws().take(i as int), self.raws()[i as int]);
                if i == 0 {
                    assert(out@ =~= self.raws()[0]);
                } else {
                    assert(out@ =~= sofar + seq!['\n'] + self.raws()[i as int]);
                }
            }
            i = i + 1;
        }
        proof {
            assert(self.raws().take(self.raws().len() as int) =~= self.raws());
        }
        out
    }
}

/// Joining one more line appends a break and the line.
pub proof fn lemma_join_snoc(ls: Seq<Seq<char>>, x: Seq<char>)
    ensures
        join_lines(ls.push(x)) == if ls.len() == 0 {
            x
        } else {
            join_lines(ls) + seq!['\n'] + x
        },
    decreases ls.len(),
{
    if ls.len() == 0 {
        assert(ls.push(x).len() == 1);
        assert(join_lines(ls.push(x)) == ls.push(x)[0]);
    } else if ls.len() == 1 {
        let p = ls.push(x);
        assert(p.drop_first() =~= seq![x]);
        assert(join_lines(p) == p[0] + seq!['\n'] + join_lines(p.drop_first()));
        assert(p[0] == ls[0]);
        assert(join_lines(ls) == ls[0]);
    } else {
        lemma_join_snoc(ls.drop_first(), x);
        let p = ls.push(x);
        assert(p.drop_first() =~= ls.drop_first().push(x));
        assert(join_lines(p) == p[0] + seq!['\n'] + join_lines(ls.drop_first().push(x)));
        assert(join_lines(ls) == ls[0] + seq!['\n'] + join_lines(ls.drop_first()));
        assert(p[0] == ls[0]);
        assert(ls[0] + seq!['\n'] + (join_lines(ls.drop_first()) + seq!['\n'] + x) =~= (ls[0]
            + seq!['\n'] + join_lines(ls.drop_first())) + seq!['\n'] + x);
    }
}

} // verus!
