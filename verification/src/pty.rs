//! Terminal panes: the command a pane runs, how its cells are coloured,
//! and where the cursor is drawn.

use vstd::prelude::*;
use crate::text::{owned, texts};

verus! {

/// A program to start in a terminal: the executable, its arguments and
/// the environment variables set for it.
pub struct CommandSpec {
    pub program: String,
    pub args: Vec<String>,
    pub env: Vec<(String, String)>,
}

/// The texts of environment pairs.
pub open spec fn env_view(v: Seq<(String, String)>) -> Seq<(Seq<char>, Seq<char>)> {
    v.map_values(|e: (String, String)| (e.0@, e.1@))
}

/// The arguments that run `command args` inside the project's `nix develop` shell.
pub open spec fn nix_args(path: Seq<char>, command: Seq<char>, args: Seq<Seq<char>>) -> Seq<Seq<char>> {
    seq!["develop"@, path, "--command"@, command] + args
}

/// How a pane starts `command` with `args`: inside `nix develop <path>`
/// when a project path is given (which also sets `TLANG_REPO_ROOT` and
/// `REPO_DIR` to it), directly otherwise; `ATELIER_ACTIVE=1` is always set.
pub fn pty_command(command: &str, args: &Vec<String>, repo_path: Option<&str>) -> (r: CommandSpec)
    ensures
        match repo_path {
            Some(p) => {
                &&& r.program@ == "nix"@
                &&& texts(r.args@) == nix_args(p@, command@, texts(args@))
                &&& env_view(r.env@) == seq![
                    ("TLANG_REPO_ROOT"@, p@),
                    ("REPO_DIR"@, p@),
                    ("ATELIER_ACTIVE"@, "1"@),
                ]
            },
            None => {
                &&& r.program@ == command@
                &&& texts(r.args@) == texts(args@)
                &&& env_view(r.env@) == seq![("ATELIER_ACTIVE"@, "1"@)]
            },
        },
{
    let mut out_args: Vec<String> = Vec::new();
    let mut env: Vec<(String, String)> = Vec::new();
    let program = match repo_path {
        Some(p) => {
            out_args.push(owned("develop"));
            out_args.push(owned(p));
            out_args.push(owned("--command"));
            out_args.push(owned(command));
            env.push((owned("TLANG_REPO_ROOT"), owned(p)));
            env.push((owned("REPO_DIR"), owned(p)));
            owned("nix")
        },
        None => owned(command),
    };
    let ghost head = texts(out_args@);
    let mut i: usize = 0;
    while i < args.len()
        invariant
            i <= args@.len(),
            texts(out_args@) == head + texts(args@).take(i as int),
        decreases args@.len() - i,
    {
        let ghost prev = texts(out_args@);
        out_args.push(args[i].clone());
        assert(texts(out_args@) =~= prev.push(args@[i as int]@));
        assert(texts(args@).take(i + 1) =~= texts(args@).take(i as int).push(args@[i as int]@));
        assert(texts(out_args@) =~= head + texts(args@).take(i + 1));
        i = i + 1;
    }
    assert(texts(args@).take(args@.len() as int) =~= texts(args@));
    env.push((owned("ATELIER_ACTIVE"), owned("1")));
    let r = CommandSpec { program, args: out_args, env };
    proof {
        match repo_path {
            Some(p) => {
                assert(head =~= seq!["develop"@, p@, "--command"@, command@]);
                assert(env_view(r.env@) =~= seq![
                    ("TLANG_REPO_ROOT"@, p@),
                    ("REPO_DIR"@, p@),
                    ("ATELIER_ACTIVE"@, "1"@),
                ]);
            },
            None => {
                assert(head =~= Seq::<Seq<char>>::empty());
                assert(texts(r.args@) =~= texts(args@));
                assert(env_view(r.env@) =~= seq![("ATELIER_ACTIVE"@, "1"@)]);
            },
        }
    }
    r
}

/// A colour as the terminal emulator reports it for a cell.
#[derive(Debug, Clone, Copy, PartialEq, Eq, Structural)]
pub enum TermColor {
    /// The terminal's own default colour.
    Default,
    /// An entry of the 256-colour palette.
    Idx(u8),
    /// A true colour.
    Rgb(u8, u8, u8),
}

/// Whether a colour is black (palette 0 or 16, or RGB 0,0,0).
pub open spec fn is_black(c: TermColor) -> bool {
    c == TermColor::Idx(0) || c == TermColor::Idx(16) || c == TermColor::Rgb(0, 0, 0)
}

/// The colour to draw with: none for the default colour.
pub open spec fn drawn(c: TermColor) -> Option<TermColor> {
    if c == TermColor::Default { None } else { Some(c) }
}

/// How a cell is drawn: its colours and attributes.
#[derive(Debug, Clone, Copy, PartialEq, Eq, Structural)]
pub struct CellStyle {
    pub fg: Option<TermColor>,
    pub bg: Option<TermColor>,
    pub bold: bool,
    pub italic: bool,
    pub underline: bool,
    pub reversed: bool,
}

/// The style of a cell: the foreground as given, the background unless it
/// is default or black (so the workspace's own background shows), and the
/// attributes.
pub fn cell_style(fg: TermColor, bg: TermColor, bold: bool, italic: bool, underline: bool, inverse: bool) -> (r: CellStyle)
    ensures
        r.fg == drawn(fg),
        r.bg == (if bg == TermColor::Default || is_black(bg) { None } else { Some(bg) }),
        r.bold == bold,
        r.italic == italic,
        r.underline == underline,
        r.reversed == inverse,
{
    let fg_c = if fg == TermColor::Default { None } else { Some(fg) };
    let black = bg == TermColor::Idx(0) || bg == TermColor::Idx(16) || bg == TermColor::Rgb(0, 0, 0);
    let bg_c = if bg == TermColor::Default || black { None } else { Some(bg) };
    CellStyle { fg: fg_c, bg: bg_c, bold, italic, underline, reversed: inverse }
}

/// Where the terminal cursor is drawn in a pane of `rows` by `cols`: at
/// its (column, row) when it lies inside, nowhere otherwise.
pub fn cursor_in_view(cursor_row: u16, cursor_col: u16, rows: u16, cols: u16) -> (r: Option<(u16, u16)>)
    ensures
        r == (if cursor_row < rows && cursor_col < cols { Some((cursor_col, cursor_row)) } else { None }),
{
    if cursor_row < rows && cursor_col < cols {
        Some((cursor_col, cursor_row))
    } else {
        None
    }
}

/// The size a terminal pane last told its program.
pub struct PtySize {
    pub cols: u16,
    pub rows: u16,
}

impl PtySize {
    /// Records a new size; tells whether it differs (and the program must be told).
    pub fn resize(&mut self, cols: u16, rows: u16) -> (changed: bool)
        ensures
            changed == (cols != old(self).cols || rows != old(self).rows),
            final(self).cols == cols,
            final(self).rows == rows,
    {
        if cols != self.cols || rows != self.rows {
            self.cols = cols;
            self.rows = rows;
            true
        } else {
            false
        }
    }
}

} // verus!
