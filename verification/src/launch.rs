//! Starting up: the editor chosen at first launch, the arguments the editor
//! starts with, and the saved session's location.

use vstd::prelude::*;
use crate::config::{Config, EditorConfig, is_default_except_editor, config_dir, config_dir_spec};
use crate::plot::file_name;
use crate::text::{chars_of, join_path, join_relative, owned, str_eq, string_from_chars, texts, trim, trim_chars};

verus! {

/// The choice offered first: nvim, else nano, else vim, else vi, else nvim.
pub open spec fn default_choice_spec(nvim_ok: bool, vim_ok: bool, nano_ok: bool, vi_ok: bool) -> Seq<char> {
    if nvim_ok {
        "1"@
    } else if nano_ok {
        "3"@
    } else if vim_ok {
        "2"@
    } else if vi_ok {
        "4"@
    } else {
        "1"@
    }
}

/// The choice offered first, given which editors were found.
pub fn default_editor_choice(nvim_ok: bool, vim_ok: bool, nano_ok: bool, vi_ok: bool) -> (r: &'static str)
    ensures
        r@ == default_choice_spec(nvim_ok, vim_ok, nano_ok, vi_ok),
{
    if nvim_ok {
        "1"
    } else if nano_ok {
        "3"
    } else if vim_ok {
        "2"
    } else if vi_ok {
        "4"
    } else {
        "1"
    }
}

/// The arguments vim-like editors start with: skip the intro screen.
pub open spec fn vim_args() -> Seq<Seq<char>> {
    seq!["--cmd"@, "set shortmess+=I"@]
}

/// The editor for a numbered or named choice, if it names one.
pub open spec fn named_editor(c: Seq<char>) -> Option<(Seq<char>, Seq<Seq<char>>)> {
    if c == "1"@ || c == "nvim"@ {
        Some(("nvim"@, vim_args()))
    } else if c == "2"@ || c == "vim"@ {
        Some(("vim"@, vim_args()))
    } else if c == "3"@ || c == "nano"@ {
        Some(("nano"@, Seq::empty()))
    } else if c == "4"@ || c == "vi"@ {
        Some(("vi"@, vim_args()))
    } else {
        None
    }
}

/// The editor and its arguments for what was typed at the first-launch
/// prompt: the trimmed answer, or the default when it is empty; an answer
/// that names no editor falls back to the default choice.
pub open spec fn chosen_editor(input: Seq<char>, default_choice: Seq<char>) -> (Seq<char>, Seq<Seq<char>>) {
    let c = if trim(input).len() == 0 { default_choice } else { trim(input) };
    match named_editor(c) {
        Some(e) => e,
        None => if default_choice == "2"@ {
            ("vim"@, vim_args())
        } else if default_choice == "3"@ {
            ("nano"@, Seq::empty())
        } else if default_choice == "4"@ {
            ("vi"@, vim_args())
        } else {
            ("nvim"@, vim_args())
        },
    }
}

fn vim_args_exec() -> (r: Vec<String>)
    ensures
        texts(r@) == vim_args(),
{
    let r = vec![owned("--cmd"), owned("set shortmess+=I")];
    assert(texts(r@) =~= vim_args());
    r
}

fn editor_named(name: &str, vim_like: bool) -> (r: (String, Vec<String>))
    ensures
        r.0@ == name@,
        texts(r.1@) == (if vim_like { vim_args() } else { Seq::<Seq<char>>::empty() }),
{
    let args = if vim_like {
        vim_args_exec()
    } else {
        let v: Vec<String> = Vec::new();
        assert(texts(v@) =~= Seq::<Seq<char>>::empty());
        v
    };
    (owned(name), args)
}

/// The editor for the answer at the first-launch prompt (see [`chosen_editor`]).
pub fn editor_for_choice(input: &str, default_choice: &str) -> (r: (String, Vec<String>))
    ensures
        (r.0@, texts(r.1@)) == chosen_editor(input@, default_choice@),
{
    let t = string_from_chars(trim_chars(&chars_of(input)).as_slice());
    let c: &str = if t.as_str().unicode_len() == 0 { default_choice } else { t.as_str() };
    if str_eq(c, "1") || str_eq(c, "nvim") {
        editor_named("nvim", true)
    } else if str_eq(c, "2") || str_eq(c, "vim") {
        editor_named("vim", true)
    } else if str_eq(c, "3") || str_eq(c, "nano") {
        editor_named("nano", false)
    } else if str_eq(c, "4") || str_eq(c, "vi") {
        editor_named("vi", true)
    } else if str_eq(default_choice, "2") {
        editor_named("vim", true)
    } else if str_eq(default_choice, "3") {
        editor_named("nano", false)
    } else if str_eq(default_choice, "4") {
        editor_named("vi", true)
    } else {
        editor_named("nvim", true)
    }
}

/// The settings written at first launch: the defaults with the chosen editor.
pub fn first_launch_config(command: String, args: Vec<String>) -> (r: Config)
    ensures
        r.editor.command@ == command@,
        texts(r.editor.args@) == texts(args@),
        is_default_except_editor(r),
{
    let d = Config::default();
    Config { editor: EditorConfig { command, args }, ..d }
}

/// Keeps the terminal's background behind the editor's text.
pub open spec fn transparent_autocmd() -> Seq<char> {
    "autocmd ColorScheme * highlight Normal ctermbg=NONE guibg=NONE | highlight NormalNC ctermbg=NONE guibg=NONE | highlight NonText ctermbg=NONE guibg=NONE | highlight SignColumn ctermbg=NONE guibg=NONE | highlight LineNr ctermbg=NONE guibg=NONE | highlight EndOfBuffer ctermbg=NONE guibg=NONE"@
}

/// Clears the backgrounds of the editor's highlight groups.
pub open spec fn transparent_highlight() -> Seq<char> {
    "highlight Normal ctermbg=NONE guibg=NONE | highlight NormalNC ctermbg=NONE guibg=NONE | highlight NonText ctermbg=NONE guibg=NONE | highlight SignColumn ctermbg=NONE guibg=NONE | highlight LineNr ctermbg=NONE guibg=NONE | highlight EndOfBuffer ctermbg=NONE guibg=NONE"@
}

/// Whether the editor command is nvim, vim or vi (by its file name).
pub open spec fn is_vim_like(command: Seq<char>) -> bool {
    let n = file_name(command);
    n == "nvim"@ || n == "vim"@ || n == "vi"@
}

/// The editor's start arguments: for vim-like editors, the configured ones
/// (or the intro-skipping default when there are none), then two `--cmd`
/// options that keep the terminal's background; others start with the
/// configured arguments.
pub open spec fn editor_start_args(command: Seq<char>, args: Seq<Seq<char>>) -> Seq<Seq<char>> {
    if is_vim_like(command) {
        (if args.len() == 0 { vim_args() } else { args }) + seq![
            "--cmd"@,
            transparent_autocmd(),
            "--cmd"@,
            transparent_highlight(),
        ]
    } else {
        args
    }
}

/// The arguments the editor starts with (see [`editor_start_args`]).
pub fn editor_launch_args(command: &str, args: &Vec<String>) -> (r: Vec<String>)
    ensures
        texts(r@) == editor_start_args(command@, texts(args@)),
{
    let name = crate::plot::file_name_of(command);
    let vim_like = str_eq(name.as_str(), "nvim") || str_eq(name.as_str(), "vim") || str_eq(name.as_str(), "vi");
    let mut out: Vec<String> = Vec::new();
    let mut i: usize = 0;
    while i < args.len()
        invariant
            i <= args@.len(),
            texts(out@) == texts(args@).take(i as int),
        decreases args@.len() - i,
    {
        let ghost prev = texts(out@);
        out.push(args[i].clone());
        assert(texts(out@) =~= prev.push(args@[i as int]@));
        assert(texts(args@).take(i + 1) =~= texts(args@).take(i as int).push(args@[i as int]@));
        i = i + 1;
    }
    assert(texts(args@).take(args@.len() as int) =~= texts(args@));
    if !vim_like {
        return out;
    }
    if out.len() == 0 {
        out = vim_args_exec();
    }
    let ghost base = texts(out@);
    out.push(owned("--cmd"));
    out.push(owned(
        "autocmd ColorScheme * highlight Normal ctermbg=NONE guibg=NONE | highlight NormalNC ctermbg=NONE guibg=NONE | highlight NonText ctermbg=NONE guibg=NONE | highlight SignColumn ctermbg=NONE guibg=NONE | highlight LineNr ctermbg=NONE guibg=NONE | highlight EndOfBuffer ctermbg=NONE guibg=NONE",
    ));
    out.push(owned("--cmd"));
    out.push(owned(
        "highlight Normal ctermbg=NONE guibg=NONE | highlight NormalNC ctermbg=NONE guibg=NONE | highlight NonText ctermbg=NONE guibg=NONE | highlight SignColumn ctermbg=NONE guibg=NONE | highlight LineNr ctermbg=NONE guibg=NONE | highlight EndOfBuffer ctermbg=NONE guibg=NONE",
    ));
    assert(texts(out@) =~= base + seq!["--cmd"@, transparent_autocmd(), "--cmd"@, transparent_highlight()]);
    out
}

/// Files the workspace leaves in `/tmp`, removed at start and at exit.
pub open spec fn temp_files() -> Seq<Seq<char>> {
    seq!["/tmp/atelier-vars.csv"@, "/tmp/atelier-cmd"@, "/tmp/atelier-buffers.txt"@, "/tmp/atelier-llm-context.md"@]
}

/// Directories the workspace leaves in `/tmp`, removed at start and at exit.
pub open spec fn temp_dirs() -> Seq<Seq<char>> {
    seq!["/tmp/atelier"@, "/tmp/atelier-plots"@]
}

/// The temporary files and directories to remove.
pub fn cleanup_targets() -> (r: (Vec<String>, Vec<String>))
    ensures
        texts(r.0@) == temp_files(),
        texts(r.1@) == temp_dirs(),
{
    let files = vec![
        owned("/tmp/atelier-vars.csv"),
        owned("/tmp/atelier-cmd"),
        owned("/tmp/atelier-buffers.txt"),
        owned("/tmp/atelier-llm-context.md"),
    ];
    let dirs = vec![owned("/tmp/atelier"), owned("/tmp/atelier-plots")];
    assert(texts(files@) =~= temp_files());
    assert(texts(dirs@) =~= temp_dirs());
    (files, dirs)
}

/// What was open when the workspace last closed.
#[derive(Debug, Clone)]
pub struct Session {
    pub cwd: Option<String>,
    pub editor_buffers: Vec<String>,
    pub repl_history: Vec<String>,
}

impl Session {
    /// The session file inside the settings directory.
    pub fn path(home: Option<&str>) -> (r: String)
        ensures
            r@ == join_path(
                config_dir_spec(match home { Some(h) => Some(h@), None => None }),
                "session.toml"@,
            ),
    {
        let dir = config_dir(home);
        join_relative(dir.as_str(), "session.toml")
    }
}

} // verus!
