//! Splitting text into lines: at each `\n`, without the line terminator, a
//! `\r\n` terminator counting as one; a final line needs no terminator.
use crate::text::{char_text, char_vec};
use vstd::prelude::*;

verus! {

/// The index of the first `\n` at or after `i`, or the length when there is none.
pub open spec fn line_end(s: Seq<char>, i: int) -> int
    decreases s.len() - i,
{
    if i < 0 || i >= s.len() || s[i] == '\n' {
        i
    } else {
        line_end(s, i + 1)
    }
}

/// A line without one trailing `\r`.
pub open spec fn strip_cr(l: Seq<char>) -> Seq<char> {
    if l.len() > 0 && l.last() == '\r' {
        l.drop_last()
    } else {
        l
    }
}

/// The lines of a text.
pub open spec fn lines_of(s: Seq<char>) -> Seq<Seq<char>>
    decreases s.len(),
{
    if s.len() == 0 {
        seq![]
    } else {
        let e = line_end(s, 0);
        if e < 0 || e >= s.len() {
            seq![strip_cr(s)]
        } else {
            seq![strip_cr(s.take(e))] + lines_of(s.skip(e + 1))
        }
    }
}

proof fn lemma_line_end(s: Seq<char>, j: int, m: int)
    requires
        0 <= j <= m <= s.len(),
        m == s.len() || s[m] == '\n',
        forall|k: int| j <= k < m ==> s[k] != '\n',
    ensures
        line_end(s, j) == m,
    decreases m - j,
{
    if j < m {
        lemma_line_end(s, j + 1, m);
    }
}

fn string_from(chars: &Vec<char>, from: usize, to: usize) -> (r: String)
    requires
        from <= to <= chars.len(),
    ensures
        r@ == chars@.subrange(from as int, to as int),
{
    let mut r = String::new();
    let mut k: usize = from;
    while k < to
        invariant
            from <= k <= to <= chars.len(),
            r@ == chars@.subrange(from as int, k as int),
        decreases to - k,
    {
        let c = char_text(chars[k]);
        r.append(c.as_str());
        k = k + 1;
        assert(r@ =~= chars@.subrange(from as int, k as int));
    }
    r
}

fn line_from(chars: &Vec<char>, from: usize, to: usize) -> (r: String)
    requires
        from <= to <= chars.len(),
    ensures
        r@ == strip_cr(chars@.subrange(from as int, to as int)),
{
    if to > from && chars[to - 1] == '\r' {
        let r = string_from(chars, from, to - 1);
        assert(r@ =~= strip_cr(chars@.subrange(from as int, to as int)));
        r
    } else {
        string_from(chars, from, to)
    }
}

/// Splits a text into its lines.
pub fn split_lines(text: &str) -> (r: Vec<String>)
    ensures
        r.deep_view() == lines_of(text@),
{
    let v = char_vec(text);
    let ghost s = text@;
    let mut lines: Vec<String> = Vec::new();
    let mut start: usize = 0;
    let mut i: usize = 0;
    assert(s.skip(0) =~= s);
    assert(lines.deep_view() + lines_of(s.skip(0)) =~= lines_of(s));
    while i < v.len()
        invariant
            v@ == s,
            start <= i <= v.len(),
            forall|k: int| start <= k < i ==> s[k] != '\n',
            lines.deep_view() + lines_of(s.skip(start as int)) == lines_of(s),
        decreases v.len() - i,
    {
        if v[i] == '\n' {
            let line = line_from(&v, start, i);
            proof {
                let t = s.skip(start as int);
                lemma_line_end(t, 0, i - start);
                assert(t.take(i - start) =~= s.subrange(start as int, i as int));
                assert(t.skip(i - start + 1) =~= s.skip(i + 1));
                assert(lines_of(t) == seq![line@] + lines_of(s.skip(i + 1)));
            }
            let ghost before = lines.deep_view();
            lines.push(line);
            assert(lines.deep_view() =~= before.push(line@));
            assert(lines.deep_view() + lines_of(s.skip(i + 1)) =~= before + (seq![line@]
                + lines_of(s.skip(i + 1))));
            start = i + 1;
        }
        i = i + 1;
    }
    if start < v.len() {
        let line = line_from(&v, start, v.len());
        proof {
            let t = s.skip(start as int);
            lemma_line_end(t, 0, t.len() as int);
            assert(t =~= s.subrange(start as int, s.len() as int));
        }
        let ghost before = lines.deep_view();
        lines.push(line);
        assert(lines.deep_view() =~= before.push(line@));
        assert(lines.deep_view() =~= before + lines_of(s.skip(start as int)));
    } else {
        assert(s.skip(start as int).len() == 0);
        assert(lines.deep_view() =~= lines.deep_view() + lines_of(s.skip(start as int)));
    }
    lines
}

} // verus!
