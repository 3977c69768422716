//! The variables pane: the REPL's variables file shown as a table, with a
//! selected row that wraps around and a window that keeps it visible.

use vstd::prelude::*;
use crate::csv::{data_rows, lines_of, runs, split3, split3_exec, strip_quotes, strip_quotes_exec};
use crate::text::{chars_of, string_from_chars, str_eq};

verus! {

/// What is known of the variables file when the pane looks at it.
#[derive(Debug, Clone, Copy, PartialEq, Eq, Structural)]
pub enum FileProbe {
    /// The file cannot be examined (it is missing).
    Missing,
    /// The file exists but its modification time cannot be read.
    Unstamped,
    /// The file exists with this modification stamp.
    Stamped(u128),
}

/// One variable: its name, its type and a preview of its value.
pub struct VarEntry {
    pub name: String,
    pub var_type: String,
    pub value: String,
}

/// The variables table and its selection.
pub struct VarsPane {
    entries: Vec<VarEntry>,
    scroll: usize,
    selected_index: usize,
    csv_path: String,
    last_modified: Option<u128>,
}

/// The mathematical form of the variables pane.
pub struct VarsView {
    pub entries: Seq<(Seq<char>, Seq<char>, Seq<char>)>,
    pub scroll: usize,
    pub selected_index: usize,
    pub csv_path: Seq<char>,
    pub last_modified: Option<u128>,
}

impl View for VarsPane {
    type V = VarsView;

    closed spec fn view(&self) -> VarsView {
        VarsView {
            entries: self.entries@.map_values(|e: VarEntry| (e.name@, e.var_type@, e.value@)),
            scroll: self.scroll,
            selected_index: self.selected_index,
            csv_path: self.csv_path@,
            last_modified: self.last_modified,
        }
    }
}

/// The rows of the variables file, each field stripped of surrounding
/// quotes; rows with fewer than three fields are skipped.
pub open spec fn rows_to_entries(rows: Seq<Seq<char>>) -> Seq<(Seq<char>, Seq<char>, Seq<char>)>
    decreases rows.len(),
{
    if rows.len() == 0 {
        Seq::empty()
    } else {
        let rest = rows_to_entries(rows.drop_last());
        match split3(rows.last()) {
            Some(t) => rest.push((strip_quotes(t.0), strip_quotes(t.1), strip_quotes(t.2))),
            None => rest,
        }
    }
}

/// The table the pane shows for the contents of the variables file.
pub open spec fn table_of(content: Seq<char>) -> Seq<(Seq<char>, Seq<char>, Seq<char>)> {
    rows_to_entries(data_rows(content))
}

/// How a value is coloured, by its type.
#[derive(Debug, Clone, Copy, PartialEq, Eq, Structural)]
pub enum TypeStyle {
    /// `Int` and `Float`.
    Numeric,
    /// `String`.
    Text,
    /// Anything else.
    Plain,
}

/// The colour class of a type name.
pub open spec fn style_of(var_type: Seq<char>) -> TypeStyle {
    if var_type == "Int"@ || var_type == "Float"@ {
        TypeStyle::Numeric
    } else if var_type == "String"@ {
        TypeStyle::Text
    } else {
        TypeStyle::Plain
    }
}

/// The rows shown in a pane with `rows` lines: the header takes one, the
/// others show the entries from `start` to `end`.
pub open spec fn window(len: int, scroll: int, selected: int, rows: int) -> (int, int, int, int) {
    let max_display = rows - 1;
    let sel = if selected >= len { if len > 0 { len - 1 } else { 0 } } else { selected };
    let s1 = if sel < scroll { sel } else { scroll };
    let s2 = if sel >= s1 + max_display { sel + 1 - max_display } else { s1 };
    let start = if s2 < (if len > max_display { len - max_display } else { 0 }) {
        s2
    } else {
        if len > max_display { len - max_display } else { 0 }
    };
    let end = if start + max_display < len { start + max_display } else { len };
    (sel, s2, start, end)
}

impl VarsPane {
    /// An empty pane that reads the variables file at `csv_path`.
    pub fn new(csv_path: String) -> (r: Self)
        ensures
            r@.entries.len() == 0,
            r@.scroll == 0,
            r@.selected_index == 0,
            r@.csv_path == csv_path@,
            r@.last_modified is None,
    {
        let r = VarsPane { entries: Vec::new(), scroll: 0, selected_index: 0, csv_path, last_modified: None };
        assert(r@.entries =~= Seq::empty());
        r
    }

    /// Where the variables file is.
    pub fn csv_path(&self) -> (r: &str)
        ensures
            r@ == self@.csv_path,
    {
        self.csv_path.as_str()
    }

    /// Reads the contents of the variables file into rows (see [`table_of`]).
    pub fn read_csv(content: &str) -> (r: Vec<VarEntry>)
        ensures
            r@.map_values(|e: VarEntry| (e.name@, e.var_type@, e.value@)) == table_of(content@),
    {
        let lines = lines_of(&chars_of(content));
        let mut out: Vec<VarEntry> = Vec::new();
        let ghost view_of = |e: VarEntry| (e.name@, e.var_type@, e.value@);
        if lines.len() == 0 {
            assert(out@.map_values(view_of) =~= Seq::empty());
            return out;
        }
        let ghost rows = runs(lines@).skip(1);
        let mut i: usize = 1;
        assert(rows.take(0) =~= Seq::<Seq<char>>::empty());
        assert(out@.map_values(view_of) =~= Seq::empty());
        while i < lines.len()
            invariant
                1 <= i <= lines@.len(),
                rows == runs(lines@).skip(1),
                view_of == (|e: VarEntry| (e.name@, e.var_type@, e.value@)),
                out@.map_values(view_of) == rows_to_entries(rows.take(i - 1)),
            decreases lines@.len() - i,
        {
            let ghost prev = out@;
            assert(rows.take(i as int).drop_last() =~= rows.take(i - 1));
            assert(rows.take(i as int).last() == lines@[i as int]@);
            if let Some(t) = split3_exec(&lines[i]) {
                let name = string_from_chars(strip_quotes_exec(&t.0).as_slice());
                let var_type = string_from_chars(strip_quotes_exec(&t.1).as_slice());
                let value = string_from_chars(strip_quotes_exec(&t.2).as_slice());
                out.push(VarEntry { name, var_type, value });
                assert(out@.map_values(view_of) =~= prev.map_values(view_of).push((
                    strip_quotes(t.0@),
                    strip_quotes(t.1@),
                    strip_quotes(t.2@),
                )));
            }
            i = i + 1;
        }
        assert(rows.take(lines@.len() - 1) =~= rows);
        out
    }

    /// Whether a look at the file calls for reading it again: it exists with
    /// a modification stamp other than the one last read.
    pub fn wants_reload(&self, probe: FileProbe) -> (r: bool)
        ensures
            r == (probe matches FileProbe::Stamped(t) && self@.last_modified != Some(t)),
    {
        match probe {
            FileProbe::Stamped(t) => match self.last_modified {
                Some(m) => m != t,
                None => true,
            },
            _ => false,
        }
    }

    /// Updates the table after a look at the file. When the file changed,
    /// `content` is what was read from it (`None` when it could not be read,
    /// which leaves the table empty) and the selection goes back to the top.
    /// When the file is gone, a non-empty table is cleared.
    pub fn check_updates(&mut self, probe: FileProbe, content: Option<&str>)
        ensures
            final(self)@.csv_path == old(self)@.csv_path,
            match probe {
                FileProbe::Stamped(t) => if old(self)@.last_modified != Some(t) {
                    &&& final(self)@.entries == (match content {
                        Some(c) => table_of(c@),
                        None => Seq::empty(),
                    })
                    &&& final(self)@.last_modified == Some(t)
                    &&& final(self)@.selected_index == 0
                    &&& final(self)@.scroll == 0
                } else {
                    final(self)@ == old(self)@
                },
                FileProbe::Unstamped => final(self)@ == old(self)@,
                FileProbe::Missing => if old(self)@.entries.len() > 0 {
                    &&& final(self)@.entries.len() == 0
                    &&& final(self)@.last_modified is None
                    &&& final(self)@.selected_index == old(self)@.selected_index
                    &&& final(self)@.scroll == old(self)@.scroll
                } else {
                    final(self)@ == old(self)@
                },
            },
    {
        match probe {
            FileProbe::Stamped(t) => {
                if self.wants_reload(probe) {
                    self.entries = match content {
                        Some(c) => Self::read_csv(c),
                        None => Vec::new(),
                    };
                    assert(content is None ==> self@.entries =~= Seq::empty());
                    self.last_modified = Some(t);
                    self.selected_index = 0;
                    self.scroll = 0;
                }
            },
            FileProbe::Unstamped => {},
            FileProbe::Missing => {
                if self.entries.len() > 0 {
                    self.entries = Vec::new();
                    assert(self@.entries =~= Seq::empty());
                    self.last_modified = None;
                }
            },
        }
    }

    /// The colour class of a type name.
    pub fn style_for_type(var_type: &str) -> (r: TypeStyle)
        ensures
            r == style_of(var_type@),
    {
        if str_eq(var_type, "Int") || str_eq(var_type, "Float") {
            TypeStyle::Numeric
        } else if str_eq(var_type, "String") {
            TypeStyle::Text
        } else {
            TypeStyle::Plain
        }
    }

    /// The number of variables.
    pub fn len(&self) -> (n: usize)
        ensures
            n == self@.entries.len(),
    {
        self.entries.len()
    }

    /// The variable at `i`: name, type and value.
    pub fn entry(&self, i: usize) -> (r: (&str, &str, &str))
        requires
            i < self@.entries.len(),
        ensures
            (r.0@, r.1@, r.2@) == self@.entries[i as int],
    {
        let e = &self.entries[i];
        (e.name.as_str(), e.var_type.as_str(), e.value.as_str())
    }

    /// The selected row.
    pub fn selected(&self) -> (r: usize)
        ensures
            r == self@.selected_index,
    {
        self.selected_index
    }

    /// Fits the window to a pane of `rows` lines (one is the header) so that
    /// the selected row is visible, and returns the range of rows to show;
    /// `None` when there is no room for a row.
    pub fn visible_range(&mut self, rows: usize) -> (r: Option<(usize, usize)>)
        ensures
            final(self)@.entries == old(self)@.entries,
            final(self)@.csv_path == old(self)@.csv_path,
            final(self)@.last_modified == old(self)@.last_modified,
            rows <= 1 ==> r is None && final(self)@ == old(self)@,
            rows > 1 ==> {
                let w = window(
                    old(self)@.entries.len() as int,
                    old(self)@.scroll as int,
                    old(self)@.selected_index as int,
                    rows as int,
                );
                &&& r == Some((w.2 as usize, w.3 as usize))
                &&& final(self)@.selected_index == w.0
                &&& final(self)@.scroll == w.1
            },
    {
        if rows <= 1 {
            return None;
        }
        let max_display = rows - 1;
        let len = self.entries.len();
        if self.selected_index >= len {
            self.selected_index = if len > 0 { len - 1 } else { 0 };
        }
        if self.selected_index < self.scroll {
            self.scroll = self.selected_index;
        }
        if self.selected_index >= self.scroll && self.selected_index - self.scroll >= max_display {
            self.scroll = self.selected_index + 1 - max_display;
        }
        let floor = if len > max_display { len - max_display } else { 0 };
        let start = if self.scroll < floor { self.scroll } else { floor };
        let end = if max_display < len - start { start + max_display } else { len };
        Some((start, end))
    }

    /// Keys when the pane has focus: `j` or Down selects the next row, `k` or
    /// Up the previous; both wrap around. Other input is ignored.
    pub fn write_input(&mut self, bytes: &[u8])
        ensures
            final(self)@.entries == old(self)@.entries,
            final(self)@.scroll == old(self)@.scroll,
            final(self)@.csv_path == old(self)@.csv_path,
            final(self)@.last_modified == old(self)@.last_modified,
            (bytes@ == seq![0x6au8] || bytes@ == seq![0x1bu8, 0x5bu8, 0x42u8]) && old(self)@.entries.len() > 0
                ==> final(self)@.selected_index == (old(self)@.selected_index + 1) % (old(self)@.entries.len() as int),
            (bytes@ == seq![0x6bu8] || bytes@ == seq![0x1bu8, 0x5bu8, 0x41u8]) && old(self)@.entries.len() > 0
                ==> final(self)@.selected_index == (if old(self)@.selected_index == 0 {
                old(self)@.entries.len() - 1
            } else {
                old(self)@.selected_index - 1
            }),
            !((bytes@ == seq![0x6au8] || bytes@ == seq![0x1bu8, 0x5bu8, 0x42u8] || bytes@ == seq![0x6bu8]
                || bytes@ == seq![0x1bu8, 0x5bu8, 0x41u8]) && old(self)@.entries.len() > 0)
                ==> final(self)@ == old(self)@,
    {
        let down = (bytes.len() == 1 && bytes[0] == 0x6a) || (bytes.len() == 3 && bytes[0] == 0x1b
            && bytes[1] == 0x5b && bytes[2] == 0x42);
        let up = (bytes.len() == 1 && bytes[0] == 0x6b) || (bytes.len() == 3 && bytes[0] == 0x1b
            && bytes[1] == 0x5b && bytes[2] == 0x41);
        proof {
            if bytes@.len() == 1 {
                assert(bytes@ =~= seq![bytes@[0]]);
            }
            if bytes@.len() == 3 {
                assert(bytes@ =~= seq![bytes@[0], bytes@[1], bytes@[2]]);
            }
        }
        let len = self.entries.len();
        if down {
            if len > 0 {
                self.selected_index = if self.selected_index < len - 1 {
                    (self.selected_index + 1) % len
                } else {
                    (self.selected_index % len + 1) % len
                };
                proof {
                    let s = old(self)@.selected_index as int;
                    let n = len as int;
                    if s >= n - 1 {
                        assert((s % n + 1) % n == (s + 1) % n) by (nonlinear_arith)
                            requires n > 0, s >= 0;
                    }
                }
            }
        } else if up {
            if len > 0 {
                self.selected_index = if self.selected_index == 0 {
                    len - 1
                } else {
                    self.selected_index - 1
                };
            }
        }
    }

    /// The name of the selected variable, which Enter asks the REPL to explain.
    pub fn explain_name(&self) -> (r: Option<String>)
        ensures
            self@.selected_index < self@.entries.len() ==> (r matches Some(n) && n@
                == self@.entries[self@.selected_index as int].0),
            self@.selected_index >= self@.entries.len() ==> r is None,
    {
        if self.selected_index < self.entries.len() {
            Some(self.entries[self.selected_index].name.clone())
        } else {
            None
        }
    }
}

} // verus!
