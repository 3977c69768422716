//! The small CSV dialect of the variables file: a header line, then one
//! `name,type,value` row per variable, where the value may hold commas.

use vstd::prelude::*;
use crate::text::{chars_of, string_from_chars, slice_chars, trim, trim_chars};

verus! {

/// The index of the first `c` in `s`, if any.
pub open spec fn index_of(s: Seq<char>, c: char) -> Option<int>
    decreases s.len(),
{
    if s.len() == 0 {
        None
    } else if s[0] == c {
        Some(0)
    } else {
        match index_of(s.drop_first(), c) {
            Some(k) => Some(k + 1),
            None => None,
        }
    }
}

/// What [`index_of`] finds is the first occurrence.
pub proof fn lemma_index_of(s: Seq<char>, c: char)
    ensures
        match index_of(s, c) {
            Some(k) => 0 <= k < s.len() && s[k] == c && forall|j: int| 0 <= j < k ==> s[j] != c,
            None => forall|j: int| 0 <= j < s.len() ==> s[j] != c,
        },
    decreases s.len(),
{
    if s.len() > 0 && s[0] != c {
        lemma_index_of(s.drop_first(), c);
        assert forall|j: int| 1 <= j < s.len() implies s[j] == s.drop_first()[j - 1] by {}
    }
}

/// The lines of a text as `str::lines` gives them: split at `\n`, a `\r`
/// right before the `\n` dropped, no empty line after a final `\n`.
pub open spec fn split_lines(s: Seq<char>) -> Seq<Seq<char>>
    decreases s.len(),
{
    if s.len() == 0 {
        Seq::empty()
    } else {
        match index_of(s, '\n') {
            Some(k) => {
                proof {
                    lemma_index_of(s, '\n');
                }
                let line = s.take(k);
                let line = if line.len() > 0 && line.last() == '\r' {
                    line.drop_last()
                } else {
                    line
                };
                seq![line] + split_lines(s.skip(k + 1))
            },
            None => seq![s],
        }
    }
}

/// A row cut at its first two commas (`splitn(3, ',')` with three parts).
pub open spec fn split3(row: Seq<char>) -> Option<(Seq<char>, Seq<char>, Seq<char>)> {
    match index_of(row, ',') {
        Some(k1) => {
            let rest = row.skip(k1 + 1);
            match index_of(rest, ',') {
                Some(k2) => Some((row.take(k1), rest.take(k2), rest.skip(k2 + 1))),
                None => None,
            }
        },
        None => None,
    }
}

/// The data rows of a CSV text: every line after the header.
pub open spec fn data_rows(content: Seq<char>) -> Seq<Seq<char>> {
    let lines = split_lines(content);
    if lines.len() == 0 {
        lines
    } else {
        lines.skip(1)
    }
}

/// The index of the first `c` in `v` at or after `from`.
pub fn find_char_from(v: &Vec<char>, from: usize, c: char) -> (r: Option<usize>)
    requires
        from <= v@.len(),
    ensures
        match r {
            Some(k) => from <= k < v@.len() && index_of(v@.skip(from as int), c) == Some(k - from),
            None => index_of(v@.skip(from as int), c) is None,
        },
{
    let mut i = from;
    while i < v.len()
        invariant
            from <= i <= v@.len(),
            index_of(v@.skip(from as int), c) == (match index_of(v@.skip(i as int), c) {
                Some(k) => Some(k + (i - from)),
                None => None,
            }),
        decreases v@.len() - i,
    {
        assert(v@.skip(i as int)[0] == v@[i as int]);
        if v[i] == c {
            return Some(i);
        }
        assert(v@.skip(i as int).drop_first() =~= v@.skip(i + 1));
        i = i + 1;
    }
    assert(v@.skip(i as int).len() == 0);
    None
}

/// The views of a list of character runs.
pub open spec fn runs(v: Seq<Vec<char>>) -> Seq<Seq<char>> {
    v.map_values(|x: Vec<char>| x@)
}

/// The lines of a text (see [`split_lines`]).
pub fn lines_of(v: &Vec<char>) -> (r: Vec<Vec<char>>)
    ensures
        runs(r@) == split_lines(v@),
{
    let mut out: Vec<Vec<char>> = Vec::new();
    let mut i: usize = 0;
    assert(v@.skip(0) =~= v@);
    while i < v.len()
        invariant
            i <= v@.len(),
            runs(out@) + split_lines(v@.skip(i as int)) == split_lines(v@),
        decreases v@.len() - i,
    {
        let ghost rest = v@.skip(i as int);
        match find_char_from(v, i, '\n') {
            Some(k) => {
                let mut end = k;
                if end > i && v[end - 1] == '\r' {
                    end = end - 1;
                }
                let line = slice_chars(v, i, end);
                proof {
                    let kk = k - i;
                    assert(rest.take(kk) =~= v@.subrange(i as int, k as int));
                    if k > i && v@[k - 1] == '\r' {
                        assert(rest.take(kk).drop_last() =~= v@.subrange(i as int, k - 1));
                    }
                    assert(rest.skip(kk + 1) =~= v@.skip(k + 1));
                    assert(split_lines(rest) == seq![line@] + split_lines(v@.skip(k + 1)));
                }
                let ghost before = runs(out@);
                out.push(line);
                assert(runs(out@) =~= before.push(line@));
                assert(runs(out@) + split_lines(v@.skip(k + 1)) =~= before + (seq![line@] + split_lines(v@.skip(k + 1))));
                i = k + 1;
            },
            None => {
                let line = slice_chars(v, i, v.len());
                assert(line@ =~= rest);
                let ghost before = runs(out@);
                out.push(line);
                assert(runs(out@) =~= before.push(line@));
                assert(v@.skip(v@.len() as int) =~= Seq::<char>::empty());
                assert(runs(out@) + split_lines(v@.skip(v@.len() as int)) =~= before + seq![rest]);
                i = v.len();
            },
        }
    }
    assert(v@.skip(i as int) =~= Seq::<char>::empty());
    assert(runs(out@) + Seq::<Seq<char>>::empty() =~= runs(out@));
    out
}

/// Cuts a row at its first two commas.
pub fn split3_exec(row: &Vec<char>) -> (r: Option<(Vec<char>, Vec<char>, Vec<char>)>)
    ensures
        match r {
            Some(t) => split3(row@) == Some((t.0@, t.1@, t.2@)),
            None => split3(row@) is None,
        },
{
    assert(row@.skip(0) =~= row@);
    let n = row.len();
    match find_char_from(row, 0, ',') {
        Some(k1) => {
            match find_char_from(row, k1 + 1, ',') {
                Some(k2) => {
                    let a = slice_chars(row, 0, k1);
                    let b = slice_chars(row, k1 + 1, k2);
                    let c = slice_chars(row, k2 + 1, n);
                    let ghost rest = row@.skip(k1 + 1);
                    assert(a@ =~= row@.take(k1 as int));
                    assert(b@ =~= rest.take(k2 - (k1 + 1)));
                    assert(c@ =~= rest.skip(k2 - (k1 + 1) + 1));
                    Some((a, b, c))
                },
                None => None,
            }
        },
        None => None,
    }
}

/// Collapses each `""` to `"`, left to right (`str::replace("\"\"", "\"")`).
pub open spec fn collapse_quotes(s: Seq<char>) -> Seq<char>
    decreases s.len(),
{
    if s.len() == 0 {
        s
    } else if s.len() >= 2 && s[0] == '"' && s[1] == '"' {
        seq!['"'] + collapse_quotes(s.skip(2))
    } else {
        seq![s[0]] + collapse_quotes(s.skip(1))
    }
}

/// A field of the variables file as the assistant's context reads it: white
/// space trimmed, one pair of surrounding quotes removed, doubled quotes made single.
pub open spec fn unescaped_field(s: Seq<char>) -> Seq<char> {
    let t = trim(s);
    if t.len() >= 2 && t[0] == '"' && t.last() == '"' {
        collapse_quotes(t.subrange(1, t.len() - 1))
    } else {
        collapse_quotes(t)
    }
}

fn collapse_quotes_exec(v: &Vec<char>) -> (r: Vec<char>)
    ensures
        r@ == collapse_quotes(v@),
{
    let mut out: Vec<char> = Vec::new();
    let mut i: usize = 0;
    assert(v@.skip(0) =~= v@);
    while i < v.len()
        invariant
            i <= v@.len(),
            out@ + collapse_quotes(v@.skip(i as int)) == collapse_quotes(v@),
        decreases v@.len() - i,
    {
        let ghost rest = v@.skip(i as int);
        let ghost before = out@;
        if i + 1 < v.len() && v[i] == '"' && v[i + 1] == '"' {
            out.push('"');
            assert(rest.skip(2) =~= v@.skip(i + 2));
            assert(out@ + collapse_quotes(v@.skip(i + 2)) =~= before + collapse_quotes(rest));
            i = i + 2;
        } else {
            out.push(v[i]);
            assert(rest.skip(1) =~= v@.skip(i + 1));
            assert(out@ + collapse_quotes(v@.skip(i + 1)) =~= before + collapse_quotes(rest));
            i = i + 1;
        }
    }
    assert(v@.skip(i as int) =~= Seq::<char>::empty());
    assert(out@ + Seq::<char>::empty() =~= out@);
    out
}

/// Cleans one field of the variables file (see [`unescaped_field`]).
pub fn unescape_csv_field(s: &str) -> (r: String)
    ensures
        r@ == unescaped_field(s@),
{
    let t = trim_chars(&chars_of(s));
    if t.len() >= 2 && t[0] == '"' && t[t.len() - 1] == '"' {
        let inner = slice_chars(&t, 1, t.len() - 1);
        let c = collapse_quotes_exec(&inner);
        string_from_chars(c.as_slice())
    } else {
        let c = collapse_quotes_exec(&t);
        string_from_chars(c.as_slice())
    }
}

/// Removes every leading and trailing `"` (`str::trim_matches('"')`).
pub open spec fn strip_quotes(s: Seq<char>) -> Seq<char>
    decreases s.len(),
{
    if s.len() > 0 && s[0] == '"' {
        strip_quotes(s.drop_first())
    } else if s.len() > 0 && s.last() == '"' {
        strip_quotes(s.drop_last())
    } else {
        s
    }
}

/// Removes every leading and trailing `"`.
pub fn strip_quotes_exec(v: &Vec<char>) -> (r: Vec<char>)
    ensures
        r@ == strip_quotes(v@),
{
    let mut i: usize = 0;
    let mut j: usize = v.len();
    assert(v@.subrange(0, v@.len() as int) =~= v@);
    while i < j && v[i] == '"'
        invariant
            i <= j <= v@.len(),
            j == v@.len(),
            strip_quotes(v@.subrange(i as int, j as int)) == strip_quotes(v@),
        decreases j - i,
    {
        assert(v@.subrange(i as int, j as int).drop_first() =~= v@.subrange(i + 1, j as int));
        i = i + 1;
    }
    while j > i && v[j - 1] == '"'
        invariant
            i <= j <= v@.len(),
            i == j || v@[i as int] != '"',
            strip_quotes(v@.subrange(i as int, j as int)) == strip_quotes(v@),
        decreases j - i,
    {
        assert(v@.subrange(i as int, j as int).drop_last() =~= v@.subrange(i as int, j - 1));
        j = j - 1;
    }
    slice_chars(v, i, j)
}

} // verus!
