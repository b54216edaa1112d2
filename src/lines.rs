//! Splitting text into lines and numbering them.

use vstd::prelude::*;
use crate::text::{chars_of, decimal, decimal_wide, push_char, string_of};

verus! {

/// The lines completed so far and the unfinished one: a line feed ends a
/// line, and a carriage return just before it goes with it.
pub open spec fn lines_acc(s: Seq<char>) -> (Seq<Seq<char>>, Seq<char>)
    decreases s.len(),
{
    if s.len() == 0 {
        (Seq::empty(), Seq::empty())
    } else {
        let (ls, cur) = lines_acc(s.drop_last());
        if s.last() == '\n' {
            let line = if cur.len() > 0 && cur.last() == '\r' { cur.drop_last() } else { cur };
            (ls.push(line), Seq::empty())
        } else {
            (ls, cur.push(s.last()))
        }
    }
}

/// The lines of a text, as `str::lines` yields them: a final line feed adds
/// no empty line, and an unterminated last line keeps all its characters.
pub open spec fn lines_of(s: Seq<char>) -> Seq<Seq<char>> {
    let (ls, cur) = lines_acc(s);
    if cur.len() > 0 { ls.push(cur) } else { ls }
}

pub open spec fn strings_view(v: Seq<String>) -> Seq<Seq<char>> {
    v.map_values(|s: String| s@)
}

/// Splits a text into its lines.
pub fn split_lines(s: &str) -> (r: Vec<String>)
    ensures
        strings_view(r@) == lines_of(s@),
        r@.len() <= s@.len(),
{
    let c = chars_of(s);
    let mut out: Vec<String> = Vec::new();
    let mut cur: Vec<char> = Vec::new();
    let mut i: usize = 0;
    assert(c@.take(0) =~= Seq::<char>::empty());
    assert(strings_view(out@) =~= Seq::<Seq<char>>::empty());
    while i < c.len()
        invariant
            i <= c.len(),
            c@ == s@,
            (strings_view(out@), cur@) == lines_acc(c@.take(i as int)),
            out@.len() + cur@.len() <= i,
        decreases c.len() - i,
    {
        assert(c@.take(i + 1).drop_last() =~= c@.take(i as int));
        assert(c@.take(i + 1).last() == c@[i as int]);
        if c[i] == '\n' {
            let n = cur.len();
            let line = if n > 0 && cur[n - 1] == '\r' {
                assert(cur@.subrange(0, n - 1) =~= cur@.drop_last());
                string_of(&cur[0..n - 1])
            } else {
                string_of(cur.as_slice())
            };
            let ghost before = out@;
            out.push(line);
            assert(strings_view(out@) =~= strings_view(before).push(line@));
            cur = Vec::new();
            assert(cur@ =~= Seq::<char>::empty());
        } else {
            cur.push(c[i]);
        }
        i = i + 1;
    }
    assert(c@.take(c.len() as int) =~= c@);
    if cur.len() > 0 {
        let ghost before = out@;
        out.push(string_of(cur.as_slice()));
        assert(strings_view(out@) =~= strings_view(before).push(cur@));
    }
    out
}

/// `d` right-aligned in `width` columns.
pub open spec fn pad_left(d: Seq<char>, width: nat) -> Seq<char> {
    if d.len() >= width { d } else { Seq::new((width - d.len()) as nat, |i: int| ' ') + d }
}

/// Lines numbered from `start`, each as its right-aligned number, a tab and
/// the line, joined by line feeds.
pub open spec fn numbered(lines: Seq<Seq<char>>, start: nat, width: nat) -> Seq<char>
    decreases lines.len(),
{
    if lines.len() == 0 {
        Seq::empty()
    } else {
        let last = pad_left(decimal((start + lines.len() - 1) as nat), width) + seq!['\t'] + lines.last();
        if lines.len() == 1 {
            last
        } else {
            numbered(lines.drop_last(), start, width) + seq!['\n'] + last
        }
    }
}

/// Right-aligns a number in `width` columns.
pub fn pad_number(n: u128, width: usize) -> (r: String)
    ensures
        r@ == pad_left(decimal(n as nat), width as nat),
{
    let d = decimal_wide(n);
    let len = chars_of(d.as_str()).len();
    if len >= width {
        return d;
    }
    let mut r = String::new();
    let mut k: usize = 0;
    while k < width - len
        invariant
            k <= width - len,
            r@ == Seq::new(k as nat, |i: int| ' '),
        decreases width - len - k,
    {
        push_char(&mut r, ' ');
        k = k + 1;
        assert(r@ =~= Seq::new(k as nat, |i: int| ' '));
    }
    r.append(d.as_str());
    r
}

/// Numbers the lines of a text from `start`.
pub fn number_lines(content: &str, start: usize, width: usize) -> (r: String)
    ensures
        r@ == numbered(lines_of(content@), start as nat, width as nat),
{
    let lines = split_lines(content);
    let ghost ls = lines_of(content@);
    let mut r = String::new();
    let mut i: usize = 0;
    while i < lines.len()
        invariant
            i <= lines.len(),
            strings_view(lines@) == ls,
            r@ == numbered(ls.take(i as int), start as nat, width as nat),
        decreases lines.len() - i,
    {
        let ghost prev = ls.take(i as int);
        assert(ls.take(i + 1).drop_last() =~= prev);
        assert(ls.take(i + 1).last() == lines@[i as int]@);
        if i > 0 {
            push_char(&mut r, '\n');
        }
        let num = pad_number(start as u128 + i as u128, width);
        r.append(num.as_str());
        push_char(&mut r, '\t');
        r.append(lines[i].as_str());
        i = i + 1;
    }
    assert(ls.take(lines.len() as int) =~= ls);
    r
}


/// Texts joined by line feeds.
pub open spec fn join_lf(parts: Seq<Seq<char>>) -> Seq<char>
    decreases parts.len(),
{
    if parts.len() == 0 {
        Seq::empty()
    } else if parts.len() == 1 {
        parts[0]
    } else {
        join_lf(parts.drop_last()) + seq!['\n'] + parts.last()
    }
}

/// Joins texts with line feeds.
pub fn join_slice(v: &[String]) -> (r: String)
    ensures
        r@ == join_lf(strings_view(v@)),
{
    let mut r = String::new();
    let mut i: usize = 0;
    while i < v.len()
        invariant
            i <= v.len(),
            r@ == join_lf(strings_view(v@.take(i as int))),
        decreases v.len() - i,
    {
        assert(strings_view(v@.take(i + 1)).drop_last() =~= strings_view(v@.take(i as int)));
        assert(strings_view(v@.take(i + 1)).last() == v@[i as int]@);
        if i > 0 {
            push_char(&mut r, '\n');
        }
        r.append(v[i].as_str());
        i = i + 1;
    }
    assert(v@.take(v.len() as int) =~= v@);
    r
}

} // verus!
