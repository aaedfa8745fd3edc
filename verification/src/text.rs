//! Splitting text into lines and joining lines back into text.
//!
//! A line break is a single `'\n'`.  Splitting drops a final break without
//! producing an empty last line, exactly as the joined form of a list of
//! lines is reproduced by splitting it again (see `lemma_lines_round_trip`).

use vstd::prelude::*;
use crate::strutil::push_char;
use crate::strutil::str_chars;

verus! {

/// The views of a sequence of owned strings.
pub open spec fn line_views(v: Seq<String>) -> Seq<Seq<char>> {
    v.map_values(|s: String| s@)
}

/// Lines joined with a single `'\n'` between consecutive lines.
pub open spec fn join_lines(lines: Seq<Seq<char>>) -> Seq<char>
    decreases lines.len(),
{
    if lines.len() == 0 {
        Seq::empty()
    } else if lines.len() == 1 {
        lines[0]
    } else {
        lines[0] + seq!['\n'] + join_lines(lines.drop_first())
    }
}

/// `c` prepended to the first line of `ls` (to a new line if there is none).
pub open spec fn prepend_first(c: char, ls: Seq<Seq<char>>) -> Seq<Seq<char>> {
    if ls.len() == 0 {
        seq![seq![c]]
    } else {
        seq![seq![c] + ls[0]] + ls.drop_first()
    }
}

/// The lines of `t`: maximal `'\n'`-free runs, one per line break plus a
/// final line only if nonempty (so a trailing break adds no empty line).
pub open spec fn lines_of(t: Seq<char>) -> Seq<Seq<char>>
    decreases t.len(),
{
    if t.len() == 0 {
        Seq::empty()
    } else if t[0] == '\n' {
        seq![Seq::<char>::empty()] + lines_of(t.drop_first())
    } else {
        prepend_first(t[0], lines_of(t.drop_first()))
    }
}

/// Splitting starts fresh after the first break: if `a` holds no break,
/// the lines of `a + '\n' + b` are `a` followed by the lines of `b`.
pub proof fn lemma_lines_of_break(a: Seq<char>, b: Seq<char>)
    requires
        forall|j: int| 0 <= j < a.len() ==> a[j] != '\n',
    ensures
        lines_of(a + seq!['\n'] + b) == seq![a] + lines_of(b),
    decreases a.len(),
{
    let t = a + seq!['\n'] + b;
    if a.len() == 0 {
        assert(t =~= seq!['\n'] + b);
        assert((seq!['\n'] + b).drop_first() =~= b);
        assert(seq![Seq::<char>::empty()] + lines_of(b) =~~= seq![a] + lines_of(b));
    } else {
        lemma_lines_of_break(a.drop_first(), b);
        assert(t[0] == a[0]);
        assert(t.drop_first() =~= a.drop_first() + seq!['\n'] + b);
        let inner = lines_of(a.drop_first() + seq!['\n'] + b);
        assert(inner == seq![a.drop_first()] + lines_of(b));
        assert(inner.len() > 0);
        assert(inner[0] == a.drop_first());
        assert(lines_of(t) == prepend_first(a[0], inner));
        assert(seq![a[0]] + a.drop_first() =~= a);
        assert(prepend_first(a[0], inner) =~= seq![a] + lines_of(b));
    }
}

/// A nonempty text with no break is a single line.
pub proof fn lemma_lines_of_plain(a: Seq<char>)
    requires
        a.len() > 0,
        forall|j: int| 0 <= j < a.len() ==> a[j] != '\n',
    ensures
        lines_of(a) == seq![a],
    decreases a.len(),
{
    if a.len() == 1 {
        assert(lines_of(a.drop_first()) =~= Seq::<Seq<char>>::empty());
        assert(prepend_first(a[0], Seq::empty()) =~= seq![seq![a[0]]]);
        assert(seq![a[0]] =~= a);
    } else {
        lemma_lines_of_plain(a.drop_first());
        assert(lines_of(a) == prepend_first(a[0], seq![a.drop_first()]));
        assert(seq![a[0]] + a.drop_first() =~= a);
        assert(prepend_first(a[0], seq![a.drop_first()]) =~= seq![a]);
    }
}

/// Joining lines and splitting the result reproduces the lines, as long as
/// no line holds a break of its own and the last line is not empty.
pub proof fn lemma_lines_round_trip(lines: Seq<Seq<char>>)
    requires
        forall|i: int, j: int|
            0 <= i < lines.len() && 0 <= j < lines[i].len() ==> lines[i][j] != '\n',
        lines.len() > 0 ==> lines.last().len() > 0,
    ensures
        lines_of(join_lines(lines)) == lines,
    decreases lines.len(),
{
    if lines.len() == 0 {
    } else if lines.len() == 1 {
        lemma_lines_of_plain(lines[0]);
        assert(lines_of(join_lines(lines)) =~= lines);
    } else {
        let rest = lines.drop_first();
        assert(rest.last() == lines.last());
        lemma_lines_round_trip(rest);
        lemma_lines_of_break(lines[0], join_lines(rest));
        assert(lines_of(join_lines(lines)) == seq![lines[0]] + rest);
        assert(seq![lines[0]] + rest =~= lines);
    }
}

/// The lines of `s`, split at each `'\n'`.
pub fn split_text(s: &str) -> (r: Vec<String>)
    ensures
        line_views(r@) == lines_of(s@),
{
    let cs = str_chars(s);
    let mut done: Vec<String> = Vec::new();
    let mut cur: String = String::new();
    let mut i: usize = 0;
    proof {
        assert(cur@ + cs@.skip(0) =~= cs@);
        assert(line_views(done@) + lines_of(cs@) =~= lines_of(cs@));
    }
    while i < cs.len()
        invariant
            cs@ == s@,
            0 <= i <= cs@.len(),
            forall|j: int| 0 <= j < cur@.len() ==> cur@[j] != '\n',
            lines_of(cs@) == line_views(done@) + lines_of(cur@ + cs@.skip(i as int)),
        decreases cs@.len() - i,
    {
        let c = cs[i];
        let ghost prev = cur@;
        let ghost dv = line_views(done@);
        proof {
            assert(prev + cs@.skip(i as int) =~= (prev + seq![cs@[i as int]]) + cs@.skip(
                i as int + 1,
            ));
        }
        if c == '\n' {
            proof {
                assert((prev + seq!['\n']) + cs@.skip(i as int + 1) =~= prev + seq!['\n']
                    + cs@.skip(i as int + 1));
                lemma_lines_of_break(prev, cs@.skip(i as int + 1));
            }
            let mut finished = String::new();
            core::mem::swap(&mut finished, &mut cur);
            done.push(finished);
            proof {
                assert(line_views(done@) =~= dv + seq![prev]);
                assert(dv + (seq![prev] + lines_of(cs@.skip(i as int + 1))) =~= (dv + seq![
                    prev,
                ]) + lines_of(cs@.skip(i as int + 1)));
                assert(cur@ + cs@.skip(i as int + 1) =~= cs@.skip(i as int + 1));
            }
        } else {
            push_char(&mut cur, c);
            proof {
                assert(cur@ + cs@.skip(i as int + 1) =~= (prev + seq![cs@[i as int]])
                    + cs@.skip(i as int + 1));
            }
        }
        i = i + 1;
    }
    proof {
        assert(cur@ + cs@.skip(i as int) =~= cur@);
    }
    if !cur.as_str().is_empty() {
        proof {
            lemma_lines_of_plain(cur@);
        }
        let ghost dv = line_views(done@);
        let ghost cv = cur@;
        done.push(cur);
        proof {
            assert(line_views(done@) =~= dv + seq![cv]);
        }
    } else {
        proof {
            assert(line_views(done@) + lines_of(cur@) =~= line_views(done@));
        }
    }
    done
}

} // verus!
