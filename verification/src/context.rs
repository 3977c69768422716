//! The context snapshot handed to the assistant: the editor's cursor line
//! and file, the pipeline, the variables and the recent REPL lines, as
//! markdown.

use vstd::prelude::*;
use std::collections::hash_map::DefaultHasher;
use std::hash::{Hash, Hasher};
use crate::csv::{data_rows, lines_of, runs, split3, split3_exec, unescaped_field, unescape_csv_field};
use crate::text::{
    chars_of, has_char, contains_char, owned, slice_chars, string_from_chars, texts, trim,
    trim_chars, is_ws, is_whitespace,
};

verus! {

/// What the assistant is told about the workspace.
pub struct AtelierContext {
    pub cursor_line: Option<String>,
    pub cursor_file: Option<String>,
    pub pipeline: Option<String>,
    pub variables: Vec<(String, String, String)>,
    pub repl_history: Vec<String>,
    pub hash: u64,
}

/// The texts of the variables rows.
pub open spec fn vars_view(v: Seq<(String, String, String)>) -> Seq<(Seq<char>, Seq<char>, Seq<char>)> {
    v.map_values(|e: (String, String, String)| (e.0@, e.1@, e.2@))
}

/// The index of the last `c` in `s`, if any.
pub open spec fn last_index_of(s: Seq<char>, c: char) -> Option<int>
    decreases s.len(),
{
    if s.len() == 0 {
        None
    } else if s.last() == c {
        Some(s.len() - 1)
    } else {
        last_index_of(s.drop_last(), c)
    }
}

/// The length of the run of non-white characters at the start of `s`.
pub open spec fn first_word_len(s: Seq<char>) -> int
    decreases s.len(),
{
    if s.len() == 0 || is_ws(s[0]) {
        0
    } else {
        1 + first_word_len(s.drop_first())
    }
}

/// The file name after the last `sep`, when it looks like one.
pub open spec fn name_after(t: Seq<char>, sep: char) -> Option<Seq<char>> {
    match last_index_of(t, sep) {
        Some(p) => {
            let cand = trim(t.skip(p + 1));
            if cand.len() > 0 && !has_char(cand, '\u{1b}') && !has_char(cand, '<') && !has_char(cand, '"') {
                Some(cand)
            } else {
                None
            }
        },
        None => None,
    }
}

/// The file name an editor's status line shows: what follows the last `/`
/// (else the last `\`), trimmed, when it holds no escape, `<` or `"`;
/// otherwise the first word when it holds no escape.
pub open spec fn filename_from_status(status: Seq<char>) -> Option<Seq<char>> {
    let t = trim(status);
    if t.len() == 0 {
        None
    } else {
        match name_after(t, '/') {
            Some(n) => Some(n),
            None => match name_after(t, '\\') {
                Some(n) => Some(n),
                None => {
                    let w = t.take(first_word_len(t));
                    if w.len() > 0 && !has_char(w, '\u{1b}') {
                        Some(w)
                    } else {
                        None
                    }
                },
            },
        }
    }
}

proof fn lemma_last_index_of(s: Seq<char>, c: char)
    ensures
        match last_index_of(s, c) {
            Some(p) => 0 <= p < s.len() && s[p] == c,
            None => true,
        },
    decreases s.len(),
{
    if s.len() > 0 && s.last() != c {
        lemma_last_index_of(s.drop_last(), c);
    }
}

fn last_index_exec(v: &Vec<char>, c: char) -> (r: Option<usize>)
    ensures
        match r {
            Some(p) => last_index_of(v@, c) == Some(p as int) && p < v@.len(),
            None => last_index_of(v@, c) is None,
        },
{
    let mut j = v.len();
    assert(v@.take(v@.len() as int) =~= v@);
    while j > 0
        invariant
            j <= v@.len(),
            last_index_of(v@, c) == last_index_of(v@.take(j as int), c),
        decreases j,
    {
        if v[j - 1] == c {
            return Some(j - 1);
        }
        assert(v@.take(j as int).drop_last() =~= v@.take(j - 1));
        j = j - 1;
    }
    None
}

fn name_after_exec(t: &Vec<char>, sep: char) -> (r: Option<Vec<char>>)
    ensures
        match r {
            Some(n) => name_after(t@, sep) == Some(n@),
            None => name_after(t@, sep) is None,
        },
{
    let n = t.len();
    match last_index_exec(t, sep) {
        Some(p) => {
            let rest = slice_chars(t, p + 1, n);
            assert(rest@ =~= t@.skip(p + 1));
            let cand = trim_chars(&rest);
            if cand.len() > 0 && !contains_char(&cand, '\u{1b}') && !contains_char(&cand, '<')
                && !contains_char(&cand, '"') {
                Some(cand)
            } else {
                None
            }
        },
        None => None,
    }
}

/// The file name shown in an editor's status line (see [`filename_from_status`]).
pub fn extract_filename(status_line: &str) -> (r: Option<String>)
    ensures
        match r {
            Some(n) => filename_from_status(status_line@) == Some(n@),
            None => filename_from_status(status_line@) is None,
        },
{
    let t = trim_chars(&chars_of(status_line));
    if t.len() == 0 {
        return None;
    }
    if let Some(n) = name_after_exec(&t, '/') {
        return Some(string_from_chars(n.as_slice()));
    }
    if let Some(n) = name_after_exec(&t, '\\') {
        return Some(string_from_chars(n.as_slice()));
    }
    let mut k: usize = 0;
    assert(t@.skip(0) =~= t@);
    while k < t.len() && !is_whitespace(t[k])
        invariant
            k <= t@.len(),
            first_word_len(t@) == k + first_word_len(t@.skip(k as int)),
        decreases t@.len() - k,
    {
        assert(t@.skip(k as int).drop_first() =~= t@.skip(k + 1));
        k = k + 1;
    }
    let w = slice_chars(&t, 0, k);
    assert(w@ =~= t@.take(first_word_len(t@)));
    if w.len() > 0 && !contains_char(&w, '\u{1b}') {
        Some(string_from_chars(w.as_slice()))
    } else {
        None
    }
}

/// The variables of a CSV text, each field cleaned by [`unescaped_field`];
/// rows with fewer than three fields are skipped.
pub open spec fn rows_to_variables(rows: Seq<Seq<char>>) -> Seq<(Seq<char>, Seq<char>, Seq<char>)>
    decreases rows.len(),
{
    if rows.len() == 0 {
        Seq::empty()
    } else {
        let rest = rows_to_variables(rows.drop_last());
        match split3(rows.last()) {
            Some(t) => rest.push((unescaped_field(t.0), unescaped_field(t.1), unescaped_field(t.2))),
            None => rest,
        }
    }
}

/// The variables the context lists for the contents of the variables file.
pub open spec fn context_variables(content: Seq<char>) -> Seq<(Seq<char>, Seq<char>, Seq<char>)> {
    rows_to_variables(data_rows(content))
}

/// Reads the variables file's contents into (name, type, value) rows.
pub fn parse_variables(content: &str) -> (r: Vec<(String, String, String)>)
    ensures
        vars_view(r@) == context_variables(content@),
{
    let lines = lines_of(&chars_of(content));
    let mut out: Vec<(String, String, String)> = Vec::new();
    if lines.len() == 0 {
        assert(vars_view(out@) =~= Seq::empty());
        return out;
    }
    let ghost rows = runs(lines@).skip(1);
    let mut i: usize = 1;
    assert(rows.take(0) =~= Seq::<Seq<char>>::empty());
    while i < lines.len()
        invariant
            1 <= i <= lines@.len(),
            rows == runs(lines@).skip(1),
            vars_view(out@) == rows_to_variables(rows.take(i - 1)),
        decreases lines@.len() - i,
    {
        let ghost prev = vars_view(out@);
        assert(rows.take(i as int).drop_last() =~= rows.take(i - 1));
        assert(rows.take(i as int).last() == lines@[i as int]@);
        if let Some(t) = split3_exec(&lines[i]) {
            let a = unescape_csv_field(string_from_chars(t.0.as_slice()).as_str());
            let b = unescape_csv_field(string_from_chars(t.1.as_slice()).as_str());
            let c = unescape_csv_field(string_from_chars(t.2.as_slice()).as_str());
            out.push((a, b, c));
            assert(vars_view(out@) =~= prev.push((
                unescaped_field(t.0@),
                unescaped_field(t.1@),
                unescaped_field(t.2@),
            )));
        }
        i = i + 1;
    }
    assert(rows.take(lines@.len() - 1) =~= rows);
    out
}

/// The trimmed cursor line, when it is not blank.
pub open spec fn context_line(line: Option<Seq<char>>) -> Option<Seq<char>> {
    match line {
        Some(l) => if trim(l).len() > 0 { Some(trim(l)) } else { None },
        None => None,
    }
}

/// The pipeline text, when it is not blank.
pub open spec fn context_pipeline(p: Option<Seq<char>>) -> Option<Seq<char>> {
    match p {
        Some(t) => if trim(t).len() > 0 { Some(t) } else { None },
        None => None,
    }
}

/// The REPL screen lines that are not blank, in order.
pub open spec fn nonblank_lines(lines: Seq<Seq<char>>) -> Seq<Seq<char>>
    decreases lines.len(),
{
    if lines.len() == 0 {
        Seq::empty()
    } else {
        let rest = nonblank_lines(lines.drop_last());
        if trim(lines.last()).len() > 0 {
            rest.push(lines.last())
        } else {
            rest
        }
    }
}

/// The fingerprint `DefaultHasher` gives the five parts of a context, taken
/// by their texts. std leaves the hash algorithm unspecified, so only its
/// name is known here.
pub uninterp spec fn context_fingerprint(
    cursor_line: Option<Seq<char>>,
    cursor_file: Option<Seq<char>>,
    pipeline: Option<Seq<char>>,
    variables: Seq<(Seq<char>, Seq<char>, Seq<char>)>,
    repl_history: Seq<Seq<char>>,
) -> u64;

/// A fingerprint of a context, used to tell whether it changed: the parts
/// hashed in order with a fresh `DefaultHasher` (std's `DefaultHasher::new`,
/// `Hash::hash`, `Hasher::finish`). Hashing a string, an option or a vector
/// feeds the hasher the text, the variant and the items, so the result
/// depends on the parts' texts alone, and every `DefaultHasher::new` starts
/// alike; the contract claims that, and names the value.
#[verifier::external_body]
pub(crate) fn compute_hash(
    cursor_line: &Option<String>,
    cursor_file: &Option<String>,
    pipeline: &Option<String>,
    variables: &Vec<(String, String, String)>,
    repl_history: &Vec<String>,
) -> (r: u64)
    ensures
        r == context_fingerprint(
            opt_string(*cursor_line),
            opt_string(*cursor_file),
            opt_string(*pipeline),
            vars_view(variables@),
            texts(repl_history@),
        ),
{
    let mut h = DefaultHasher::new();
    (cursor_line, cursor_file, pipeline, variables, repl_history).hash(&mut h);
    h.finish()
}

/// The text of an optional string slice.
pub open spec fn opt_view(o: Option<&str>) -> Option<Seq<char>> {
    match o {
        Some(s) => Some(s@),
        None => None,
    }
}

/// The text of an optional string.
pub open spec fn opt_string(o: Option<String>) -> Option<Seq<char>> {
    match o {
        Some(s) => Some(s@),
        None => None,
    }
}

fn trimmed_nonblank(s: &str) -> (r: Option<String>)
    ensures
        match r {
            Some(t) => trim(s@).len() > 0 && t@ == trim(s@),
            None => trim(s@).len() == 0,
        },
{
    let t = trim_chars(&chars_of(s));
    if t.len() > 0 {
        Some(string_from_chars(t.as_slice()))
    } else {
        None
    }
}

/// The markdown for the current file.
pub open spec fn md_file(f: Option<Seq<char>>) -> Seq<char> {
    match f {
        Some(f) => "## Current File\n`"@ + f + "`\n\n"@,
        None => Seq::empty(),
    }
}

/// The markdown for the cursor line.
pub open spec fn md_line(l: Option<Seq<char>>) -> Seq<char> {
    match l {
        Some(l) => "## Cursor Line\n```\n"@ + l + "\n```\n\n"@,
        None => Seq::empty(),
    }
}

/// The markdown for the pipeline.
pub open spec fn md_pipeline(p: Option<Seq<char>>) -> Seq<char> {
    match p {
        Some(p) => "## Pipeline State\n```dot\n"@ + p + "\n```\n\n"@,
        None => Seq::empty(),
    }
}

/// One table row per variable.
pub open spec fn md_var_rows(vs: Seq<(Seq<char>, Seq<char>, Seq<char>)>) -> Seq<char>
    decreases vs.len(),
{
    if vs.len() == 0 {
        Seq::empty()
    } else {
        let v = vs.last();
        md_var_rows(vs.drop_last()) + "| "@ + v.0 + " | "@ + v.1 + " | "@ + v.2 + " |\n"@
    }
}

/// The markdown table of variables, when there are any.
pub open spec fn md_vars(vs: Seq<(Seq<char>, Seq<char>, Seq<char>)>) -> Seq<char> {
    if vs.len() == 0 {
        Seq::empty()
    } else {
        "## Environment Variables\n| Name | Type | Value |\n|------|------|-------|\n"@ + md_var_rows(vs) + "\n"@
    }
}

/// Lines, each followed by a newline.
pub open spec fn md_lines(ls: Seq<Seq<char>>) -> Seq<char>
    decreases ls.len(),
{
    if ls.len() == 0 {
        Seq::empty()
    } else {
        md_lines(ls.drop_last()) + ls.last() + "\n"@
    }
}

/// The last ten lines (or fewer), newest first.
pub open spec fn recent_lines(h: Seq<Seq<char>>) -> Seq<Seq<char>> {
    h.reverse().take(if h.len() < 10 { h.len() as int } else { 10 })
}

/// The markdown block of recent REPL lines, when there are any.
pub open spec fn md_history(h: Seq<Seq<char>>) -> Seq<char> {
    if h.len() == 0 {
        Seq::empty()
    } else {
        "## Recent REPL History\n```\n"@ + md_lines(recent_lines(h)) + "```\n"@
    }
}

/// The whole markdown snapshot.
pub open spec fn markdown(
    file: Option<Seq<char>>,
    line: Option<Seq<char>>,
    pipeline: Option<Seq<char>>,
    vars: Seq<(Seq<char>, Seq<char>, Seq<char>)>,
    history: Seq<Seq<char>>,
) -> Seq<char> {
    "# Atelier Context Snapshot\n\n"@ + md_file(file) + md_line(line) + md_pipeline(pipeline) + md_vars(vars)
        + md_history(history)
}

impl AtelierContext {
    /// Builds the context from what the panes and files show: the editor's
    /// cursor and status lines, the pipeline file, the variables file and
    /// the REPL's screen lines.
    pub fn gather(
        cursor_line: Option<&str>,
        status_line: Option<&str>,
        pipeline: Option<&str>,
        vars_csv: &str,
        repl_lines: &Vec<String>,
    ) -> (r: Self)
        ensures
            opt_string(r.cursor_line) == context_line(opt_view(cursor_line)),
            opt_string(r.cursor_file) == (match status_line {
                Some(s) => filename_from_status(s@),
                None => None,
            }),
            opt_string(r.pipeline) == context_pipeline(opt_view(pipeline)),
            vars_view(r.variables@) == context_variables(vars_csv@),
            texts(r.repl_history@) == nonblank_lines(texts(repl_lines@)),
            r.hash == context_fingerprint(
                opt_string(r.cursor_line),
                opt_string(r.cursor_file),
                opt_string(r.pipeline),
                vars_view(r.variables@),
                texts(r.repl_history@),
            ),
    {
        let cursor = match cursor_line {
            Some(l) => trimmed_nonblank(l),
            None => None,
        };
        let file = match status_line {
            Some(s) => extract_filename(s),
            None => None,
        };
        let pipe = match pipeline {
            Some(p) => if trim_chars(&chars_of(p)).len() > 0 {
                Some(owned(p))
            } else {
                None
            },
            None => None,
        };
        let variables = parse_variables(vars_csv);
        let mut history: Vec<String> = Vec::new();
        let mut i: usize = 0;
        while i < repl_lines.len()
            invariant
                i <= repl_lines@.len(),
                texts(history@) == nonblank_lines(texts(repl_lines@).take(i as int)),
            decreases repl_lines@.len() - i,
        {
            let ghost prev = texts(history@);
            assert(texts(repl_lines@).take(i + 1).drop_last() =~= texts(repl_lines@).take(i as int));
            if trim_chars(&chars_of(repl_lines[i].as_str())).len() > 0 {
                history.push(repl_lines[i].clone());
                assert(texts(history@) =~= prev.push(repl_lines@[i as int]@));
            }
            i = i + 1;
        }
        assert(texts(repl_lines@).take(repl_lines@.len() as int) =~= texts(repl_lines@));
        let hash = compute_hash(&cursor, &file, &pipe, &variables, &history);
        AtelierContext {
            cursor_line: cursor,
            cursor_file: file,
            pipeline: pipe,
            variables,
            repl_history: history,
            hash,
        }
    }

    /// The context as a markdown document (see [`markdown`]).
    pub fn to_markdown(&self) -> (md: String)
        ensures
            md@ == markdown(
                opt_string(self.cursor_file),
                opt_string(self.cursor_line),
                opt_string(self.pipeline),
                vars_view(self.variables@),
                texts(self.repl_history@),
            ),
    {
        let mut md = owned("# Atelier Context Snapshot\n\n");
        let ghost s0 = md@;
        push_md_file(&mut md, &self.cursor_file);
        let ghost s1 = md@;
        push_md_line(&mut md, &self.cursor_line);
        let ghost s2 = md@;
        push_md_pipeline(&mut md, &self.pipeline);
        let ghost s3 = md@;
        push_md_vars(&mut md, &self.variables);
        let ghost s4 = md@;
        push_md_history(&mut md, &self.repl_history);
        assert(md@ =~= s0 + md_file(opt_string(self.cursor_file)) + md_line(opt_string(self.cursor_line))
            + md_pipeline(opt_string(self.pipeline)) + md_vars(vars_view(self.variables@)) + md_history(
            texts(self.repl_history@),
        ));
        md
    }
}

fn push_md_file(md: &mut String, file: &Option<String>)
    ensures
        final(md)@ == old(md)@ + md_file(opt_string(*file)),
{
    if let Some(f) = file {
        md.append("## Current File\n`");
        md.append(f.as_str());
        md.append("`\n\n");
    }
    assert(md@ =~= old(md)@ + md_file(opt_string(*file)));
}

fn push_md_line(md: &mut String, line: &Option<String>)
    ensures
        final(md)@ == old(md)@ + md_line(opt_string(*line)),
{
    if let Some(l) = line {
        md.append("## Cursor Line\n```\n");
        md.append(l.as_str());
        md.append("\n```\n\n");
    }
    assert(md@ =~= old(md)@ + md_line(opt_string(*line)));
}

fn push_md_pipeline(md: &mut String, pipeline: &Option<String>)
    ensures
        final(md)@ == old(md)@ + md_pipeline(opt_string(*pipeline)),
{
    if let Some(p) = pipeline {
        md.append("## Pipeline State\n```dot\n");
        md.append(p.as_str());
        md.append("\n```\n\n");
    }
    assert(md@ =~= old(md)@ + md_pipeline(opt_string(*pipeline)));
}

fn push_md_vars(md: &mut String, variables: &Vec<(String, String, String)>)
    ensures
        final(md)@ == old(md)@ + md_vars(vars_view(variables@)),
{
    let ghost vs = vars_view(variables@);
    if variables.len() > 0 {
        md.append("## Environment Variables\n| Name | Type | Value |\n|------|------|-------|\n");
        let ghost head = md@;
        let mut i: usize = 0;
        assert(vs.take(0) =~= Seq::<(Seq<char>, Seq<char>, Seq<char>)>::empty());
        while i < variables.len()
            invariant
                i <= variables@.len(),
                vs == vars_view(variables@),
                md@ == head + md_var_rows(vs.take(i as int)),
            decreases variables@.len() - i,
        {
            md.append("| ");
            md.append(variables[i].0.as_str());
            md.append(" | ");
            md.append(variables[i].1.as_str());
            md.append(" | ");
            md.append(variables[i].2.as_str());
            md.append(" |\n");
            assert(vs.take(i + 1).drop_last() =~= vs.take(i as int));
            assert(vs.take(i + 1).last() == vs[i as int]);
            assert(md@ =~= head + md_var_rows(vs.take(i + 1)));
            i = i + 1;
        }
        assert(vs.take(variables@.len() as int) =~= vs);
        md.append("\n");
    }
    assert(md@ =~= old(md)@ + md_vars(vs));
}

fn push_md_history(md: &mut String, history: &Vec<String>)
    ensures
        final(md)@ == old(md)@ + md_history(texts(history@)),
{
    let ghost h = texts(history@);
    let n = history.len();
    if n > 0 {
        md.append("## Recent REPL History\n```\n");
        let ghost head = md@;
        let count = if n < 10 { n } else { 10 };
        let ghost rec = recent_lines(h);
        assert(rec.len() == count);
        let mut k: usize = 0;
        assert(rec.take(0) =~= Seq::<Seq<char>>::empty());
        while k < count
            invariant
                k <= count,
                n == h.len(),
                count <= n,
                h == texts(history@),
                rec == recent_lines(h),
                rec.len() == count,
                md@ == head + md_lines(rec.take(k as int)),
            decreases count - k,
        {
            md.append(history[n - 1 - k].as_str());
            md.append("\n");
            assert(rec.take(k + 1).drop_last() =~= rec.take(k as int));
            assert(rec.take(k + 1).last() == rec[k as int]);
            assert(rec[k as int] == h.reverse()[k as int]);
            assert(md@ =~= head + md_lines(rec.take(k + 1)));
            k = k + 1;
        }
        assert(rec.take(count as int) =~= rec);
        md.append("```\n");
    }
    assert(md@ =~= old(md)@ + md_history(h));
}

} // verus!
