//! The REPL transcript: what was sent and what came back, one entry each,
//! with a selection that scrolls between entries.

use vstd::prelude::*;
use crate::text::{owned, push_char};

verus! {

/// The decimal digits of a number.
pub open spec fn decimal(n: nat) -> Seq<char>
    decreases n,
{
    if n < 10 {
        seq![digit_char(n)]
    } else {
        decimal(n / 10) + seq![digit_char(n % 10)]
    }
}

/// The digit character for a value below ten.
pub open spec fn digit_char(d: nat) -> char {
    if d == 0 { '0' } else if d == 1 { '1' } else if d == 2 { '2' } else if d == 3 { '3' } else if d
        == 4 { '4' } else if d == 5 { '5' } else if d == 6 { '6' } else if d == 7 { '7' } else if d
        == 8 { '8' } else { '9' }
}

fn digit_exec(d: usize) -> (c: char)
    requires
        d < 10,
    ensures
        c == digit_char(d as nat),
{
    if d == 0 { '0' } else if d == 1 { '1' } else if d == 2 { '2' } else if d == 3 { '3' } else if d
        == 4 { '4' } else if d == 5 { '5' } else if d == 6 { '6' } else if d == 7 { '7' } else if d
        == 8 { '8' } else { '9' }
}

/// Appends the decimal digits of `n` (as `format!("{}", n)` writes them).
pub fn push_decimal(s: &mut String, n: usize)
    ensures
        final(s)@ == old(s)@ + decimal(n as nat),
    decreases n,
{
    if n < 10 {
        push_char(s, digit_exec(n));
        assert(final(s)@ =~= old(s)@ + decimal(n as nat));
    } else {
        push_decimal(s, n / 10);
        push_char(s, digit_exec(n % 10));
        assert(s@ =~= old(s)@ + decimal(n as nat));
    }
}

/// Entries sent to the REPL, with the selected one.
pub struct TranscriptPane {
    entries: Vec<(String, String)>,
    scroll_offset: usize,
}

/// The mathematical form of the transcript.
pub struct TranscriptView {
    pub entries: Seq<(Seq<char>, Seq<char>)>,
    pub scroll_offset: usize,
}

/// The highest selectable position: the last entry, or 0 when there is none.
pub open spec fn max_offset(len: nat) -> int {
    if len == 0 { 0 } else { len - 1 }
}

/// One entry of the transcript in markdown.
pub open spec fn md_entry(i: nat, e: (Seq<char>, Seq<char>)) -> Seq<char> {
    "## Entry "@ + decimal(i + 1) + "\n\n"@ + "### Sent\n\n```\n"@ + e.0 + "\n```\n\n"@
        + "### Response\n\n```\n"@ + e.1 + "\n```\n\n"@
}

/// The entries in markdown, numbered from one.
pub open spec fn md_entries(es: Seq<(Seq<char>, Seq<char>)>) -> Seq<char>
    decreases es.len(),
{
    if es.len() == 0 {
        Seq::empty()
    } else {
        md_entries(es.drop_last()) + md_entry((es.len() - 1) as nat, es.last())
    }
}

/// A line the transcript pane shows.
pub enum TranscriptLine {
    /// The hint shown while there are no entries.
    Hint,
    /// An entry's heading, numbered from one; marked when it is the selected entry.
    Header { number: usize, selected: bool },
    /// What an entry sent.
    Sent(String),
    /// A blank line after an entry.
    Blank,
    /// The position of the selected entry among all, shown with more than one entry.
    Footer { position: usize, total: usize },
}

/// The mathematical form of a transcript line.
pub enum LineView {
    Hint,
    Header { number: usize, selected: bool },
    Sent(Seq<char>),
    Blank,
    Footer { position: usize, total: usize },
}

/// The view of a transcript line.
pub open spec fn line_view(l: TranscriptLine) -> LineView {
    match l {
        TranscriptLine::Hint => LineView::Hint,
        TranscriptLine::Header { number, selected } => LineView::Header { number, selected },
        TranscriptLine::Sent(s) => LineView::Sent(s@),
        TranscriptLine::Blank => LineView::Blank,
        TranscriptLine::Footer { position, total } => LineView::Footer { position, total },
    }
}

/// The lines of entries `start` up to `end` (not included): heading, text
/// sent, blank line; the heading of `start` is marked.
pub open spec fn entry_lines(es: Seq<(Seq<char>, Seq<char>)>, start: int, end: int) -> Seq<LineView>
    decreases end - start,
{
    if end <= start {
        Seq::empty()
    } else {
        entry_lines(es, start, end - 1) + seq![
            LineView::Header { number: end as usize, selected: end - 1 == start },
            LineView::Sent(es[end - 1].0),
            LineView::Blank,
        ]
    }
}

/// What the transcript pane shows: the hint when it is empty; otherwise
/// the entries from the selected one to the last, and, with more than one
/// entry, the selected position among all.
pub open spec fn transcript_lines(es: Seq<(Seq<char>, Seq<char>)>, offset: int) -> Seq<LineView> {
    if es.len() == 0 {
        seq![LineView::Hint]
    } else {
        entry_lines(es, offset, es.len() as int) + if es.len() > 1 {
            seq![LineView::Footer { position: (offset + 1) as usize, total: es.len() as usize }]
        } else {
            Seq::empty()
        }
    }
}

impl View for TranscriptPane {
    type V = TranscriptView;

    closed spec fn view(&self) -> TranscriptView {
        TranscriptView {
            entries: self.entries@.map_values(|e: (String, String)| (e.0@, e.1@)),
            scroll_offset: self.scroll_offset,
        }
    }
}

impl TranscriptPane {
    /// The selection never goes past the last entry.
    pub open spec fn wf(&self) -> bool {
        self@.scroll_offset <= max_offset(self@.entries.len())
    }

    /// An empty transcript.
    pub fn new() -> (r: Self)
        ensures
            r@.entries.len() == 0,
            r@.scroll_offset == 0,
            r.wf(),
    {
        let r = TranscriptPane { entries: Vec::new(), scroll_offset: 0 };
        assert(r@.entries =~= Seq::empty());
        r
    }

    /// The number of entries.
    pub fn len(&self) -> (n: usize)
        ensures
            n == self@.entries.len(),
    {
        self.entries.len()
    }

    /// Adds an entry at the end and selects it.
    pub fn push_entry(&mut self, sent: &str, response: &str)
        ensures
            final(self)@.entries == old(self)@.entries.push((sent@, response@)),
            final(self)@.scroll_offset == old(self)@.entries.len(),
            final(self).wf(),
    {
        let ghost before = self@.entries;
        self.entries.push((owned(sent), owned(response)));
        assert(self@.entries =~= before.push((sent@, response@)));
        self.scroll_offset = self.entries.len() - 1;
    }

    /// The text that was sent in the selected entry.
    pub fn get_selected_entry(&self) -> (r: Option<&str>)
        requires
            self.wf(),
        ensures
            self@.entries.len() == 0 ==> r is None,
            self@.entries.len() > 0 ==> (r matches Some(s) && s@ == self@.entries[self@.scroll_offset as int].0),
    {
        if self.entries.len() == 0 {
            return None;
        }
        let idx = if self.scroll_offset < self.entries.len() - 1 {
            self.scroll_offset
        } else {
            self.entries.len() - 1
        };
        Some(self.entries[idx].0.as_str())
    }

    /// The position of the selected entry.
    pub fn selected(&self) -> (r: usize)
        ensures
            r == self@.scroll_offset,
    {
        self.scroll_offset
    }

    /// The text that was sent in entry `i`.
    pub fn sent(&self, i: usize) -> (r: &str)
        requires
            i < self@.entries.len(),
        ensures
            r@ == self@.entries[i as int].0,
    {
        self.entries[i].0.as_str()
    }

    /// The lines the pane shows (see [`transcript_lines`]).
    pub fn lines(&self) -> (r: Vec<TranscriptLine>)
        requires
            self.wf(),
        ensures
            r@.map_values(|l: TranscriptLine| line_view(l)) == transcript_lines(
                self@.entries,
                self@.scroll_offset as int,
            ),
    {
        let ghost es = self@.entries;
        let ghost view_of = |l: TranscriptLine| line_view(l);
        let mut out: Vec<TranscriptLine> = Vec::new();
        let n = self.entries.len();
        if n == 0 {
            out.push(TranscriptLine::Hint);
            assert(out@.map_values(view_of) =~= seq![LineView::Hint]);
            return out;
        }
        let start = self.scroll_offset;
        let mut i: usize = start;
        assert(out@.map_values(view_of) =~= entry_lines(es, start as int, start as int));
        while i < n
            invariant
                start <= i <= n,
                n == es.len(),
                es == self@.entries,
                view_of == (|l: TranscriptLine| line_view(l)),
                out@.map_values(view_of) == entry_lines(es, start as int, i as int),
            decreases n - i,
        {
            let ghost before = out@.map_values(view_of);
            out.push(TranscriptLine::Header { number: i + 1, selected: i == start });
            out.push(TranscriptLine::Sent(owned(self.entries[i].0.as_str())));
            out.push(TranscriptLine::Blank);
            assert(out@.map_values(view_of) =~= before + seq![
                LineView::Header { number: (i + 1) as usize, selected: i == start },
                LineView::Sent(es[i as int].0),
                LineView::Blank,
            ]);
            i = i + 1;
        }
        if n > 1 {
            let ghost before = out@.map_values(view_of);
            out.push(TranscriptLine::Footer { position: start + 1, total: n });
            assert(out@.map_values(view_of) =~= before + seq![
                LineView::Footer { position: (start + 1) as usize, total: n },
            ]);
        } else {
            assert(out@.map_values(view_of) =~= entry_lines(es, start as int, n as int) + Seq::<LineView>::empty());
        }
        out
    }

    /// Moves the selection to the previous entry, if there is one.
    pub fn scroll_up(&mut self)
        requires
            old(self).wf(),
        ensures
            final(self)@.entries == old(self)@.entries,
            final(self)@.scroll_offset == (if old(self)@.scroll_offset > 0 {
                old(self)@.scroll_offset - 1
            } else {
                0int
            }),
            final(self).wf(),
    {
        if self.scroll_offset > 0 {
            self.scroll_offset = self.scroll_offset - 1;
        }
    }

    /// Moves the selection to the next entry, if there is one.
    pub fn scroll_down(&mut self)
        requires
            old(self).wf(),
        ensures
            final(self)@.entries == old(self)@.entries,
            final(self)@.scroll_offset == (if old(self)@.scroll_offset < max_offset(old(self)@.entries.len()) {
                old(self)@.scroll_offset + 1
            } else {
                old(self)@.scroll_offset as int
            }),
            final(self).wf(),
    {
        let max_scroll = if self.entries.len() == 0 { 0 } else { self.entries.len() - 1 };
        if self.scroll_offset < max_scroll {
            self.scroll_offset = self.scroll_offset + 1;
        }
    }

    /// Scrolls by `rows` entries: up (towards the first) when positive, down otherwise.
    pub fn scroll(&mut self, rows: i16)
        requires
            old(self).wf(),
        ensures
            final(self)@.entries == old(self)@.entries,
            final(self).wf(),
            rows > 0 ==> final(self)@.scroll_offset == (if old(self)@.scroll_offset >= rows {
                old(self)@.scroll_offset - rows
            } else {
                0
            }),
            rows <= 0 ==> final(self)@.scroll_offset == (if old(self)@.scroll_offset - rows <= max_offset(
                old(self)@.entries.len(),
            ) {
                old(self)@.scroll_offset - rows
            } else {
                max_offset(old(self)@.entries.len())
            }),
    {
        let ghost start = self.scroll_offset;
        if rows > 0 {
            let mut k: i16 = 0;
            while k < rows
                invariant
                    0 <= k <= rows,
                    self.wf(),
                    self@.entries == old(self)@.entries,
                    self.scroll_offset == (if start >= k { start - k } else { 0 }),
                decreases rows - k,
            {
                self.scroll_up();
                k = k + 1;
            }
        } else {
            let mut k: i16 = 0;
            while k > rows
                invariant
                    rows <= k <= 0,
                    self.wf(),
                    self@.entries == old(self)@.entries,
                    start <= max_offset(self@.entries.len()),
                    self.scroll_offset == (if start - k <= max_offset(self@.entries.len()) {
                        start - k
                    } else {
                        max_offset(self@.entries.len())
                    }),
                decreases k - rows,
            {
                self.scroll_down();
                k = k - 1;
            }
        }
    }

    /// Keys when the transcript has focus: `j` (or the down-arrow letter `B`)
    /// selects the next entry, `k` (or `A`) the previous; other input is ignored.
    pub fn write_input(&mut self, bytes: &[u8])
        requires
            old(self).wf(),
        ensures
            final(self)@.entries == old(self)@.entries,
            final(self).wf(),
            (bytes@ == seq![0x6au8] || bytes@ == seq![0x42u8]) ==> final(self)@.scroll_offset == (if old(
                self,
            )@.scroll_offset < max_offset(old(self)@.entries.len()) {
                old(self)@.scroll_offset + 1
            } else {
                old(self)@.scroll_offset as int
            }),
            (bytes@ == seq![0x6bu8] || bytes@ == seq![0x41u8]) ==> final(self)@.scroll_offset == (if old(
                self,
            )@.scroll_offset > 0 {
                old(self)@.scroll_offset - 1
            } else {
                0int
            }),
            !(bytes@ == seq![0x6au8] || bytes@ == seq![0x42u8] || bytes@ == seq![0x6bu8] || bytes@
                == seq![0x41u8]) ==> final(self)@ == old(self)@,
    {
        if bytes.len() == 1 && (bytes[0] == 0x6a || bytes[0] == 0x42) {
            assert(bytes@ =~= seq![bytes@[0]]);
            self.scroll_down();
        } else if bytes.len() == 1 && (bytes[0] == 0x6b || bytes[0] == 0x41) {
            assert(bytes@ =~= seq![bytes@[0]]);
            self.scroll_up();
        } else {
            assert(bytes@.len() != 1 ==> bytes@ != seq![0x6au8] && bytes@ != seq![0x42u8] && bytes@
                != seq![0x6bu8] && bytes@ != seq![0x41u8]);
        }
    }

    /// The transcript as a markdown document.
    pub fn to_markdown(&self) -> (md: String)
        ensures
            md@ == "# Atelier REPL Transcript\n\n"@ + md_entries(self@.entries),
    {
        let mut md = owned("# Atelier REPL Transcript\n\n");
        let ghost head = md@;
        let ghost es = self@.entries;
        let mut i: usize = 0;
        assert(es.take(0) =~= Seq::<(Seq<char>, Seq<char>)>::empty());
        while i < self.entries.len()
            invariant
                i <= self.entries@.len(),
                es == self@.entries,
                md@ == head + md_entries(es.take(i as int)),
            decreases self.entries@.len() - i,
        {
            let ghost before = md@;
            md.append("## Entry ");
            push_decimal(&mut md, i + 1);
            md.append("\n\n");
            md.append("### Sent\n\n```\n");
            md.append(self.entries[i].0.as_str());
            md.append("\n```\n\n");
            md.append("### Response\n\n```\n");
            md.append(self.entries[i].1.as_str());
            md.append("\n```\n\n");
            assert(es.take(i + 1).drop_last() =~= es.take(i as int));
            assert(es.take(i + 1).last() == es[i as int]);
            assert(md@ =~= before + md_entry(i as nat, es[i as int]));
            i = i + 1;
        }
        assert(es.take(self.entries@.len() as int) =~= es);
        md
    }
}

} // verus!
