//! The workspace's state: which pane has focus, the input mode, overlays,
//! the file tree and the requests that the key handling hands to the
//! program that owns the panes.

use vstd::prelude::*;
use crate::config::Config;
use crate::pane::{PaneKind, first_of_kind, position_of_kind};
use crate::text::{
    chars_of, contains_infix, has_infix, owned, string_from_chars, str_eq, texts, trim_end,
    trim_start, trim_end_chars, trim_start_chars, slice_chars, is_digit,
};

verus! {

/// Whether keys go to the focused pane or are commands of the workspace.
#[derive(Debug, Clone, Copy, PartialEq, Eq, Structural)]
pub enum InputMode {
    Normal,
    Navigation,
}

/// A window drawn over the panes that takes the keys while it is open.
#[derive(Debug, Clone, Copy, PartialEq, Eq, Structural)]
pub enum Overlay {
    FileTree,
    BufferList,
    Help,
    QuitConfirm,
    ProjectSwitcher,
}

/// How much of the screen the focused pane takes.
#[derive(Debug, Clone, Copy, PartialEq, Eq, Structural)]
pub enum MaximizedState {
    Restored,
    Full,
    Vertical,
    Horizontal,
}

/// What the event loop does after a key.
#[derive(Debug, Clone, Copy, PartialEq, Eq, Structural)]
pub enum Action {
    Quit,
    Continue,
}

/// Work on the panes or the file system that a key asks for, in order.
#[derive(Debug, Clone)]
pub enum Effect {
    /// Send bytes to the pane at this index.
    Write { pane: usize, bytes: Vec<u8> },
    /// Scroll the pane at this index by this many rows (up when positive).
    Scroll { pane: usize, rows: i16 },
    /// Move the pane's tab selection forward (positive) or back.
    SwitchTab { pane: usize, delta: i8 },
    /// Show the tab of this kind in the pane, if it has one.
    SwitchToTab { pane: usize, kind: PaneKind },
    /// List the file tree's current directory again.
    RefreshFiletree,
    /// Move the file tree to the parent of its current directory, then list it.
    EnterParentDir,
    /// Send the line (or, with `region`, the region) to the REPL.
    SendToRepl { region: bool },
    /// Send the selection or the clipboard to the editor.
    SendToEditor,
    /// Send the clipboard to the REPL.
    SendClipboardToRepl,
    /// Hand fresh context to the panes that want it.
    RefreshLlmContext,
    /// Read the recent projects list into the state.
    LoadRecentProjects,
    /// Add what was sent to the REPL to the transcript.
    RecordTranscript { sent: String },
}

/// The mathematical form of an [`Effect`].
pub enum EffectView {
    Write { pane: usize, bytes: Seq<u8> },
    Scroll { pane: usize, rows: i16 },
    SwitchTab { pane: usize, delta: i8 },
    SwitchToTab { pane: usize, kind: PaneKind },
    RefreshFiletree,
    EnterParentDir,
    SendToRepl { region: bool },
    SendToEditor,
    SendClipboardToRepl,
    RefreshLlmContext,
    LoadRecentProjects,
    RecordTranscript { sent: Seq<char> },
}

impl View for Effect {
    type V = EffectView;

    open spec fn view(&self) -> EffectView {
        match self {
            Effect::Write { pane, bytes } => EffectView::Write { pane: *pane, bytes: bytes@ },
            Effect::Scroll { pane, rows } => EffectView::Scroll { pane: *pane, rows: *rows },
            Effect::SwitchTab { pane, delta } => EffectView::SwitchTab { pane: *pane, delta: *delta },
            Effect::SwitchToTab { pane, kind } => EffectView::SwitchToTab { pane: *pane, kind: *kind },
            Effect::RefreshFiletree => EffectView::RefreshFiletree,
            Effect::EnterParentDir => EffectView::EnterParentDir,
            Effect::SendToRepl { region } => EffectView::SendToRepl { region: *region },
            Effect::SendToEditor => EffectView::SendToEditor,
            Effect::SendClipboardToRepl => EffectView::SendClipboardToRepl,
            Effect::RefreshLlmContext => EffectView::RefreshLlmContext,
            Effect::LoadRecentProjects => EffectView::LoadRecentProjects,
            Effect::RecordTranscript { sent } => EffectView::RecordTranscript { sent: sent@ },
        }
    }
}

/// The views of a list of effects.
pub open spec fn effects_view(v: Seq<Effect>) -> Seq<EffectView> {
    v.map_values(|e: Effect| e@)
}

/// The state of the workspace that key handling reads and changes.
///
/// The panes themselves belong to the program; `pane_kinds[i]` is the kind
/// of its pane `i`.
pub struct App {
    pub config: Config,
    pub pane_kinds: Vec<PaneKind>,
    pub focus: usize,
    pub mode: InputMode,
    pub overlay: Option<Overlay>,
    pub maximized: MaximizedState,
    pub buffer_input: String,
    pub should_quit: bool,
    pub filetree_base: String,
    pub filetree_current: String,
    pub filetree_scroll: usize,
    pub filetree_entries: Vec<(String, bool)>,
    pub filetree_selection: usize,
    pub recent_projects: Vec<String>,
    pub project_switcher_selection: usize,
    pub should_relaunch: Option<String>,
    /// When context was last handed to the assistant, in milliseconds.
    pub last_llm_context_refresh: u64,
}

/// The mathematical form of [`App`].
pub struct AppView {
    pub config: Config,
    pub pane_kinds: Seq<PaneKind>,
    pub focus: usize,
    pub mode: InputMode,
    pub overlay: Option<Overlay>,
    pub maximized: MaximizedState,
    pub buffer_input: Seq<char>,
    pub should_quit: bool,
    pub filetree_base: Seq<char>,
    pub filetree_current: Seq<char>,
    pub filetree_scroll: usize,
    pub filetree_entries: Seq<(Seq<char>, bool)>,
    pub filetree_selection: usize,
    pub recent_projects: Seq<Seq<char>>,
    pub project_switcher_selection: usize,
    pub should_relaunch: Option<Seq<char>>,
    pub last_llm_context_refresh: u64,
}

/// The texts of file tree entries.
pub open spec fn entries_view(v: Seq<(String, bool)>) -> Seq<(Seq<char>, bool)> {
    v.map_values(|e: (String, bool)| (e.0@, e.1))
}

/// The text of an optional string.
pub open spec fn opt_text(o: Option<String>) -> Option<Seq<char>> {
    match o {
        Some(s) => Some(s@),
        None => None,
    }
}

/// The text of an optional string slice.
pub open spec fn opt_str(o: Option<&str>) -> Option<Seq<char>> {
    match o {
        Some(s) => Some(s@),
        None => None,
    }
}

impl View for App {
    type V = AppView;

    open spec fn view(&self) -> AppView {
        AppView {
            config: self.config,
            pane_kinds: self.pane_kinds@,
            focus: self.focus,
            mode: self.mode,
            overlay: self.overlay,
            maximized: self.maximized,
            buffer_input: self.buffer_input@,
            should_quit: self.should_quit,
            filetree_base: self.filetree_base@,
            filetree_current: self.filetree_current@,
            filetree_scroll: self.filetree_scroll,
            filetree_entries: entries_view(self.filetree_entries@),
            filetree_selection: self.filetree_selection,
            recent_projects: texts(self.recent_projects@),
            project_switcher_selection: self.project_switcher_selection,
            should_relaunch: opt_text(self.should_relaunch),
            last_llm_context_refresh: self.last_llm_context_refresh,
        }
    }
}

/// The maximize state named in the settings (`full`, `vertical`,
/// `horizontal`); anything else means none.
pub open spec fn maximized_from_name(s: Seq<char>) -> MaximizedState {
    if s == "full"@ {
        MaximizedState::Full
    } else if s == "vertical"@ {
        MaximizedState::Vertical
    } else if s == "horizontal"@ {
        MaximizedState::Horizontal
    } else {
        MaximizedState::Restored
    }
}

/// Reads the starting maximize state from its name in the settings.
pub fn parse_maximized(s: &str) -> (r: MaximizedState)
    ensures
        r == maximized_from_name(s@),
{
    if str_eq(s, "full") {
        MaximizedState::Full
    } else if str_eq(s, "vertical") {
        MaximizedState::Vertical
    } else if str_eq(s, "horizontal") {
        MaximizedState::Horizontal
    } else {
        MaximizedState::Restored
    }
}

/// The pane kind a slot name in the settings stands for.
pub open spec fn kind_from_position_name(s: Seq<char>) -> Option<PaneKind> {
    if s == "editor"@ {
        Some(PaneKind::Editor)
    } else if s == "repl"@ {
        Some(PaneKind::Repl)
    } else if s == "variables"@ {
        Some(PaneKind::Variables)
    } else if s == "terminal"@ {
        Some(PaneKind::Terminal)
    } else if s == "diagram"@ {
        Some(PaneKind::Diagram)
    } else if s == "plot"@ {
        Some(PaneKind::Plot)
    } else {
        None
    }
}

/// Reads a slot name from the settings.
pub fn parse_position_name(s: &str) -> (r: Option<PaneKind>)
    ensures
        r == kind_from_position_name(s@),
{
    if str_eq(s, "editor") {
        Some(PaneKind::Editor)
    } else if str_eq(s, "repl") {
        Some(PaneKind::Repl)
    } else if str_eq(s, "variables") {
        Some(PaneKind::Variables)
    } else if str_eq(s, "terminal") {
        Some(PaneKind::Terminal)
    } else if str_eq(s, "diagram") {
        Some(PaneKind::Diagram)
    } else if str_eq(s, "plot") {
        Some(PaneKind::Plot)
    } else {
        None
    }
}

/// The index of the pane shown in slot `pos`, as the settings place it.
pub open spec fn pane_at_position(a: AppView, pos: int) -> Option<int> {
    if 0 <= pos < a.config.layout.positions@.len() {
        match kind_from_position_name(a.config.layout.positions@[pos]@) {
            Some(k) => first_of_kind(a.pane_kinds, k),
            None => None,
        }
    } else {
        None
    }
}

/// Whether the editor is nano (its command mentions `nano`).
pub open spec fn editor_is_nano(c: Config) -> bool {
    has_infix(c.editor.command@, "nano"@)
}

/// The bytes of `prefix`, then the UTF-8 text `t`, then `suffix`.
pub open spec fn framed(prefix: Seq<u8>, t: Seq<char>, suffix: Seq<u8>) -> Seq<u8> {
    prefix + vstd::utf8::encode_utf8(t) + suffix
}

/// What the editor is sent to open the file at `path`.
pub open spec fn open_file_bytes(nano: bool, path: Seq<char>) -> Seq<u8> {
    if nano {
        // Alt-F (new buffer), Ctrl-R (insert file), the path, Enter.
        framed(seq![0x1bu8, 0x46u8, 0x12u8], path, seq![13u8])
    } else {
        // Esc Esc `:e <path>` Enter.
        framed(seq![0x1bu8, 0x1bu8, 0x3au8, 0x65u8, 0x20u8], path, seq![13u8])
    }
}

/// What the editor is sent to save every buffer before quitting.
pub open spec fn save_all_bytes(nano: bool) -> Seq<u8> {
    if nano {
        // Ctrl-O (write out), Enter, Ctrl-X (exit).
        seq![0x0fu8, 13u8, 0x18u8]
    } else {
        // Esc Esc `:wa` Enter.
        seq![0x1bu8, 0x1bu8, 0x3au8, 0x77u8, 0x61u8, 13u8]
    }
}

/// Appends the UTF-8 bytes of `s` to `v`.
pub(crate) fn push_text_bytes(v: &mut Vec<u8>, s: &str)
    ensures
        final(v)@ == old(v)@ + vstd::utf8::encode_utf8(s@),
{
    let b = s.as_bytes();
    let mut i: usize = 0;
    let ghost start = v@;
    while i < b.len()
        invariant
            i <= b@.len(),
            b@ == vstd::utf8::encode_utf8(s@),
            v@ == start + b@.take(i as int),
        decreases b@.len() - i,
    {
        v.push(b[i]);
        assert(b@.take(i as int).push(b@[i as int]) =~= b@.take(i + 1));
        assert(start + b@.take(i + 1) =~= (start + b@.take(i as int)).push(b@[i as int]));
        i = i + 1;
    }
    assert(b@.take(b@.len() as int) =~= b@);
}

/// A copy of a byte vector.
pub(crate) fn copy_bytes(v: &Vec<u8>) -> (r: Vec<u8>)
    ensures
        r@ == v@,
{
    let mut r: Vec<u8> = Vec::new();
    let mut i: usize = 0;
    while i < v.len()
        invariant
            i <= v@.len(),
            r@ == v@.take(i as int),
        decreases v@.len() - i,
    {
        r.push(v[i]);
        assert(v@.take(i as int).push(v@[i as int]) =~= v@.take(i + 1));
        i = i + 1;
    }
    assert(v@.take(v@.len() as int) =~= v@);
    r
}

/// `prefix`, the UTF-8 bytes of `s`, then `suffix`.
pub(crate) fn frame_text(prefix: Vec<u8>, s: &str, suffix: &Vec<u8>) -> (r: Vec<u8>)
    ensures
        r@ == framed(prefix@, s@, suffix@),
{
    let mut r = prefix;
    push_text_bytes(&mut r, s);
    let mut i: usize = 0;
    let ghost mid = r@;
    while i < suffix.len()
        invariant
            i <= suffix@.len(),
            r@ == mid + suffix@.take(i as int),
        decreases suffix@.len() - i,
    {
        r.push(suffix[i]);
        assert(suffix@.take(i as int).push(suffix@[i as int]) =~= suffix@.take(i + 1));
        assert(mid + suffix@.take(i + 1) =~= (mid + suffix@.take(i as int)).push(suffix@[i as int]));
        i = i + 1;
    }
    assert(suffix@.take(suffix@.len() as int) =~= suffix@);
    r
}

/// The bytes that make the editor open `path`.
pub fn open_file_message(nano: bool, path: &str) -> (r: Vec<u8>)
    ensures
        r@ == open_file_bytes(nano, path@),
{
    if nano {
        frame_text(vec![0x1bu8, 0x46u8, 0x12u8], path, &vec![13u8])
    } else {
        frame_text(vec![0x1bu8, 0x1bu8, 0x3au8, 0x65u8, 0x20u8], path, &vec![13u8])
    }
}

/// The writes that send `bytes` to the first pane of kind `kind`, if there is one.
pub open spec fn write_first(kinds: Seq<PaneKind>, kind: PaneKind, bytes: Seq<u8>) -> Seq<EffectView> {
    match first_of_kind(kinds, kind) {
        Some(i) => seq![EffectView::Write { pane: i as usize, bytes }],
        None => Seq::empty(),
    }
}

/// The writes that send `bytes` to every pane of kind `kind` among the first `n`, in order.
pub open spec fn write_all(kinds: Seq<PaneKind>, kind: PaneKind, bytes: Seq<u8>, n: int) -> Seq<EffectView>
    decreases n,
{
    if n <= 0 {
        Seq::empty()
    } else if kinds[n - 1] == kind {
        write_all(kinds, kind, bytes, n - 1).push(EffectView::Write { pane: (n - 1) as usize, bytes })
    } else {
        write_all(kinds, kind, bytes, n - 1)
    }
}

/// Sends `bytes` to the first pane of kind `kind`.
pub(crate) fn push_write_first(effects: &mut Vec<Effect>, kinds: &Vec<PaneKind>, kind: PaneKind, bytes: Vec<u8>)
    ensures
        effects_view(final(effects)@) == effects_view(old(effects)@) + write_first(kinds@, kind, bytes@),
{
    let ghost before = effects_view(effects@);
    match position_of_kind(kinds, kind) {
        Some(i) => {
            effects.push(Effect::Write { pane: i, bytes });
            assert(effects_view(effects@) =~= before + write_first(kinds@, kind, bytes@));
        },
        None => {
            assert(effects_view(effects@) =~= before + write_first(kinds@, kind, bytes@));
        },
    }
}

/// Sends `bytes` to every pane of kind `kind`.
pub(crate) fn push_write_all(effects: &mut Vec<Effect>, kinds: &Vec<PaneKind>, kind: PaneKind, bytes: &Vec<u8>)
    ensures
        effects_view(final(effects)@) == effects_view(old(effects)@) + write_all(
            kinds@,
            kind,
            bytes@,
            kinds@.len() as int,
        ),
{
    let ghost before = effects_view(effects@);
    let mut i: usize = 0;
    while i < kinds.len()
        invariant
            i <= kinds@.len(),
            effects_view(effects@) == before + write_all(kinds@, kind, bytes@, i as int),
        decreases kinds@.len() - i,
    {
        if kinds[i] == kind {
            let ghost prev = effects@;
            let b = copy_bytes(bytes);
            effects.push(Effect::Write { pane: i, bytes: b });
            assert(effects_view(effects@) =~= effects_view(prev).push(EffectView::Write { pane: i, bytes: bytes@ }));
            assert(write_all(kinds@, kind, bytes@, i + 1) == write_all(kinds@, kind, bytes@, i as int).push(EffectView::Write { pane: i, bytes: bytes@ }));
            assert(effects_view(effects@) =~= before + write_all(kinds@, kind, bytes@, i + 1));
        } else {
            assert(effects_view(effects@) =~= before + write_all(kinds@, kind, bytes@, i + 1));
        }
        i = i + 1;
    }
}

/// A vertical bar that editors draw between line numbers and text.
pub open spec fn is_gutter_bar(c: char) -> bool {
    c == '\u{2502}' || c == '|' || c == '\u{2503}' || c == '\u{2595}'
}

/// The first gutter bar among the first twelve characters.
pub open spec fn first_bar(s: Seq<char>) -> Option<int> {
    if exists|i: int| 0 <= i < s.len() && i < 12 && is_gutter_bar(s[i]) {
        Some(
            choose|i: int|
                0 <= i < s.len() && i < 12 && is_gutter_bar(s[i]) && forall|j: int|
                    0 <= j < i ==> !is_gutter_bar(s[j]),
        )
    } else {
        None
    }
}

/// The index after the run of spaces that starts at `i`.
pub open spec fn skip_spaces(s: Seq<char>, i: int) -> int
    decreases s.len() - i,
{
    if 0 <= i < s.len() && s[i] == ' ' {
        skip_spaces(s, i + 1)
    } else {
        i
    }
}

/// The index after the run of ASCII digits that starts at `i`.
pub open spec fn skip_digits(s: Seq<char>, i: int) -> int
    decreases s.len() - i,
{
    if 0 <= i < s.len() && is_digit(s[i]) {
        skip_digits(s, i + 1)
    } else {
        i
    }
}

/// Characters that start an arithmetic continuation rather than code.
pub open spec fn is_operator(c: char) -> bool {
    c == '+' || c == '-' || c == '*' || c == '/' || c == '=' || c == '%' || c == '^'
}

/// A screen line of the editor with its line-number gutter removed.
///
/// The line loses trailing white space. If one of its first twelve
/// characters is a gutter bar, what follows the first bar is kept, without
/// leading white space. Otherwise, when the line is spaces, digits, at least
/// one space and then a character that is not an operator, the text from
/// that character on is kept. Else the line is kept as it is.
pub open spec fn cleaned_line(line: Seq<char>) -> Seq<char> {
    let t = trim_end(line);
    match first_bar(t) {
        Some(b) => trim_start(t.skip(b + 1)),
        None => {
            let d = skip_spaces(t, 0);
            let i = skip_digits(t, d);
            let j = skip_spaces(t, i);
            if i > d && i < t.len() && t[i] == ' ' && j < t.len() && !is_operator(t[j]) {
                t.skip(j)
            } else {
                t
            }
        },
    }
}

fn skip_spaces_from(v: &Vec<char>, start: usize) -> (r: usize)
    requires
        start <= v@.len(),
    ensures
        r as int == skip_spaces(v@, start as int),
        start <= r <= v@.len(),
{
    let mut i = start;
    while i < v.len() && v[i] == ' '
        invariant
            start <= i <= v@.len(),
            skip_spaces(v@, i as int) == skip_spaces(v@, start as int),
        decreases v@.len() - i,
    {
        i = i + 1;
    }
    i
}

fn skip_digits_from(v: &Vec<char>, start: usize) -> (r: usize)
    requires
        start <= v@.len(),
    ensures
        r as int == skip_digits(v@, start as int),
        start <= r <= v@.len(),
{
    let mut i = start;
    while i < v.len() && '0' <= v[i] && v[i] <= '9'
        invariant
            start <= i <= v@.len(),
            skip_digits(v@, i as int) == skip_digits(v@, start as int),
        decreases v@.len() - i,
    {
        i = i + 1;
    }
    i
}

fn find_bar(v: &Vec<char>) -> (r: Option<usize>)
    ensures
        match r {
            Some(b) => first_bar(v@) == Some(b as int) && b < v@.len(),
            None => first_bar(v@) is None,
        },
{
    let mut i: usize = 0;
    while i < v.len() && i < 12
        invariant
            i <= v@.len(),
            i <= 12,
            forall|j: int| 0 <= j < i ==> !is_gutter_bar(v@[j]),
        decreases v@.len() - i,
    {
        let c = v[i];
        if c == '\u{2502}' || c == '|' || c == '\u{2503}' || c == '\u{2595}' {
            proof {
                let w = choose|w: int|
                    0 <= w < v@.len() && w < 12 && is_gutter_bar(v@[w]) && forall|j: int|
                        0 <= j < w ==> !is_gutter_bar(v@[j]);
                assert(0 <= i < v@.len() && i < 12 && is_gutter_bar(v@[i as int]) && forall|j: int|
                    0 <= j < i ==> !is_gutter_bar(v@[j]));
                if w < i {
                } else if w > i {
                    assert(!is_gutter_bar(v@[i as int]));
                }
            }
            return Some(i);
        }
        i = i + 1;
    }
    None
}

impl App {
    /// A fresh state for the given settings; the file tree starts at the
    /// project path, or at `.` when none was given. `now` is the current
    /// time in milliseconds.
    pub fn new(config: Config, repo_path: Option<String>, now: u64) -> (r: Self)
        ensures
            r@.config == config,
            r@.pane_kinds.len() == 0,
            r@.focus == 0,
            r@.mode == InputMode::Normal,
            r@.overlay is None,
            r@.maximized == maximized_from_name(config.layout.initial_maximized@),
            r@.buffer_input.len() == 0,
            !r@.should_quit,
            r@.filetree_base == (match repo_path { Some(p) => p@, None => "."@ }),
            r@.filetree_current == r@.filetree_base,
            r@.filetree_scroll == 0,
            r@.filetree_entries.len() == 0,
            r@.filetree_selection == 0,
            r@.recent_projects.len() == 0,
            r@.project_switcher_selection == 0,
            r@.should_relaunch is None,
            r@.last_llm_context_refresh == now,
    {
        let base = match repo_path {
            Some(p) => p,
            None => owned("."),
        };
        let initial_maximized = parse_maximized(config.layout.initial_maximized.as_str());
        let current = base.clone();
        let r = App {
            config,
            pane_kinds: Vec::new(),
            focus: 0,
            mode: InputMode::Normal,
            overlay: None,
            maximized: initial_maximized,
            buffer_input: String::new(),
            should_quit: false,
            filetree_base: base,
            filetree_current: current,
            filetree_scroll: 0,
            filetree_entries: Vec::new(),
            filetree_selection: 0,
            recent_projects: Vec::new(),
            project_switcher_selection: 0,
            should_relaunch: None,
            last_llm_context_refresh: now,
        };
        assert(entries_view(r.filetree_entries@) =~= Seq::empty());
        assert(texts(r.recent_projects@) =~= Seq::empty());
        r
    }

    /// The index of the focused pane, when it exists.
    pub fn focused_pane(&self) -> (r: Option<usize>)
        ensures
            r == (if self.focus < self.pane_kinds@.len() { Some(self.focus) } else { None }),
    {
        if self.focus < self.pane_kinds.len() {
            Some(self.focus)
        } else {
            None
        }
    }

    /// Whether the editor is nano.
    pub fn is_nano(&self) -> (r: bool)
        ensures
            r == editor_is_nano(self.config),
    {
        contains_infix(&chars_of(self.config.editor.command.as_str()), &chars_of("nano"))
    }

    /// The writes that make the first editor pane open `path`.
    pub fn open_in_editor(&self, path: &str) -> (r: Vec<Effect>)
        ensures
            effects_view(r@) == write_first(
                self.pane_kinds@,
                PaneKind::Editor,
                open_file_bytes(editor_is_nano(self.config), path@),
            ),
    {
        let nano = self.is_nano();
        let mut r: Vec<Effect> = Vec::new();
        let msg = open_file_message(nano, path);
        push_write_first(&mut r, &self.pane_kinds, PaneKind::Editor, msg);
        assert(effects_view(r@) =~= write_first(self.pane_kinds@, PaneKind::Editor, open_file_bytes(nano, path@)));
        r
    }

    /// Asks the first editor to save everything and marks the workspace for quitting.
    pub fn save_all_and_quit(&mut self) -> (r: Vec<Effect>)
        ensures
            final(self)@ == (AppView { should_quit: true, ..old(self)@ }),
            effects_view(r@) == write_first(
                old(self)@.pane_kinds,
                PaneKind::Editor,
                save_all_bytes(editor_is_nano(old(self)@.config)),
            ),
    {
        let nano = self.is_nano();
        let bytes = if nano {
            vec![0x0fu8, 13u8, 0x18u8]
        } else {
            vec![0x1bu8, 0x1bu8, 0x3au8, 0x77u8, 0x61u8, 13u8]
        };
        assert(bytes@ =~= save_all_bytes(nano));
        let mut r: Vec<Effect> = Vec::new();
        push_write_first(&mut r, &self.pane_kinds, PaneKind::Editor, bytes);
        assert(effects_view(r@) =~= write_first(self.pane_kinds@, PaneKind::Editor, save_all_bytes(nano)));
        self.should_quit = true;
        r
    }

    /// The index of the pane shown in slot `pos` (0 to 3), following the
    /// slot names in the settings.
    pub fn pane_index_at_physical_pos(&self, pos: usize) -> (r: Option<usize>)
        ensures
            match r {
                Some(i) => pane_at_position(self@, pos as int) == Some(i as int),
                None => pane_at_position(self@, pos as int) is None,
            },
    {
        if pos >= self.config.layout.positions.len() {
            return None;
        }
        match parse_position_name(self.config.layout.positions[pos].as_str()) {
            Some(kind) => position_of_kind(&self.pane_kinds, kind),
            None => None,
        }
    }

    /// Whether a jump to slot `pos` keeps the maximize state: it does when
    /// something is maximized and the slot shows the focused pane already.
    pub fn should_preserve_maximized(&self, pos: usize) -> (r: bool)
        ensures
            r == preserves_maximized(self@, pos as int),
    {
        match self.pane_index_at_physical_pos(pos) {
            Some(i) => self.maximized != MaximizedState::Restored && i == self.focus,
            None => false,
        }
    }

    /// Whether it is time to hand context to the assistant again: at least
    /// half a second after the last time. Records `now` when it is.
    pub fn refresh_llm_context(&mut self, now: u64) -> (r: bool)
        ensures
            r == (now >= old(self).last_llm_context_refresh && now - old(self).last_llm_context_refresh >= 500),
            r ==> final(self)@ == (AppView { last_llm_context_refresh: now, ..old(self)@ }),
            !r ==> final(self)@ == old(self)@,
    {
        if now < self.last_llm_context_refresh || now - self.last_llm_context_refresh < 500 {
            return false;
        }
        self.last_llm_context_refresh = now;
        true
    }

    /// The cleaned cursor line to send to the REPL, when it is not empty.
    pub fn line_to_send(cursor_line: Option<&str>) -> (r: Option<String>)
        ensures
            match cursor_line {
                Some(l) => if cleaned_line(l@).len() > 0 {
                    r matches Some(s) && s@ == cleaned_line(l@)
                } else {
                    r is None
                },
                None => r is None,
            },
    {
        match cursor_line {
            Some(l) => {
                let c = Self::clean_editor_line(l);
                if c.as_str().unicode_len() > 0 {
                    Some(c)
                } else {
                    None
                }
            },
            None => None,
        }
    }

    /// Removes the editor's line-number gutter from a screen line
    /// (see [`cleaned_line`]).
    pub fn clean_editor_line(line: &str) -> (r: String)
        ensures
            r@ == cleaned_line(line@),
    {
        let t = trim_end_chars(&chars_of(line));
        match find_bar(&t) {
            Some(b) => {
                let rest = slice_chars(&t, b + 1, t.len());
                assert(rest@ =~= t@.skip(b + 1));
                let r = trim_start_chars(&rest);
                string_from_chars(r.as_slice())
            },
            None => {
                let d = skip_spaces_from(&t, 0);
                let i = skip_digits_from(&t, d);
                if i > d && i < t.len() && t[i] == ' ' {
                    let j = skip_spaces_from(&t, i);
                    if j < t.len() {
                        let c = t[j];
                        if c != '+' && c != '-' && c != '*' && c != '/' && c != '=' && c != '%' && c != '^' {
                            let rest = slice_chars(&t, j, t.len());
                            assert(rest@ =~= t@.skip(j as int));
                            return string_from_chars(rest.as_slice());
                        }
                    }
                }
                string_from_chars(t.as_slice())
            },
        }
    }
}

/// Where the text to send comes from.
pub enum TextSource {
    /// This text.
    Text(String),
    /// The system clipboard.
    Clipboard,
}

/// What is sent to the REPL for `text`: the text, then Enter; and the text
/// goes to the transcript. Nothing for empty text.
pub open spec fn repl_send_effects(kinds: Seq<PaneKind>, text: Seq<char>) -> Seq<EffectView> {
    if text.len() == 0 {
        Seq::empty()
    } else {
        write_first(kinds, PaneKind::Repl, vstd::utf8::encode_utf8(text)) + write_first(
            kinds,
            PaneKind::Repl,
            seq![13u8],
        ) + seq![EffectView::RecordTranscript { sent: text }]
    }
}

/// What the editor is sent to insert `text`: nano takes it as typed; other
/// editors get Esc Esc, `o` (a new line below), the text and Esc.
pub open spec fn editor_insert_bytes(nano: bool, text: Seq<char>) -> Seq<u8> {
    if nano {
        vstd::utf8::encode_utf8(text)
    } else {
        framed(seq![0x1bu8, 0x1bu8, 0x6fu8], text, seq![0x1bu8])
    }
}

impl App {
    /// Mouse wheel over the focused pane: three rows up or down.
    pub fn mouse_scroll(&self, up: bool) -> (r: Vec<Effect>)
        ensures
            self.focus < self.pane_kinds@.len() ==> effects_view(r@) == seq![
                EffectView::Scroll { pane: self.focus, rows: if up { 3i16 } else { -3i16 } },
            ],
            self.focus >= self.pane_kinds@.len() ==> r@.len() == 0,
    {
        let mut r: Vec<Effect> = Vec::new();
        if self.focus < self.pane_kinds.len() {
            r.push(Effect::Scroll { pane: self.focus, rows: if up { 3 } else { -3 } });
            assert(effects_view(r@) =~= seq![
                EffectView::Scroll { pane: self.focus, rows: if up { 3i16 } else { -3i16 } },
            ]);
        }
        r
    }

    /// Where the text for the REPL comes from. From the transcript, its
    /// selected entry. A region comes from the clipboard. A line is the
    /// focused pane's cursor line without its gutter, or the clipboard when
    /// that is empty.
    pub fn repl_text_source(&self, region: bool, transcript_selection: Option<&str>, cursor_line: Option<&str>) -> (r: TextSource)
        ensures
            self.focus < self.pane_kinds@.len() && self.pane_kinds@[self.focus as int] == PaneKind::Transcript
                && transcript_selection is Some ==> (r matches TextSource::Text(t) && t@
                == transcript_selection->0@),
            !(self.focus < self.pane_kinds@.len() && self.pane_kinds@[self.focus as int] == PaneKind::Transcript
                && transcript_selection is Some) ==> if !region && cursor_line is Some && cleaned_line(
                cursor_line->0@,
            ).len() > 0 {
                r matches TextSource::Text(t) && t@ == cleaned_line(cursor_line->0@)
            } else {
                r is Clipboard
            },
    {
        if self.focus < self.pane_kinds.len() && self.pane_kinds[self.focus] == PaneKind::Transcript {
            if let Some(s) = transcript_selection {
                return TextSource::Text(owned(s));
            }
        }
        if region {
            return TextSource::Clipboard;
        }
        match Self::line_to_send(cursor_line) {
            Some(l) => TextSource::Text(l),
            None => TextSource::Clipboard,
        }
    }

    /// Where the text for the editor comes from: the transcript's selected
    /// entry when the transcript has focus, else the clipboard.
    pub fn editor_text_source(&self, transcript_selection: Option<&str>) -> (r: TextSource)
        ensures
            self.focus < self.pane_kinds@.len() && self.pane_kinds@[self.focus as int] == PaneKind::Transcript
                && transcript_selection is Some ==> (r matches TextSource::Text(t) && t@
                == transcript_selection->0@),
            !(self.focus < self.pane_kinds@.len() && self.pane_kinds@[self.focus as int] == PaneKind::Transcript
                && transcript_selection is Some) ==> r is Clipboard,
    {
        if self.focus < self.pane_kinds.len() && self.pane_kinds[self.focus] == PaneKind::Transcript {
            if let Some(s) = transcript_selection {
                return TextSource::Text(owned(s));
            }
        }
        TextSource::Clipboard
    }

    /// Sends `text` to the REPL (see [`repl_send_effects`]).
    pub fn send_to_repl(&self, text: &str) -> (r: Vec<Effect>)
        ensures
            effects_view(r@) == repl_send_effects(self.pane_kinds@, text@),
    {
        let mut r: Vec<Effect> = Vec::new();
        if text.unicode_len() == 0 {
            assert(effects_view(r@) =~= Seq::empty());
            return r;
        }
        let mut bytes: Vec<u8> = Vec::new();
        push_text_bytes(&mut bytes, text);
        assert(bytes@ =~= vstd::utf8::encode_utf8(text@));
        push_write_first(&mut r, &self.pane_kinds, PaneKind::Repl, bytes);
        let enter = vec![13u8];
        assert(enter@ =~= seq![13u8]);
        push_write_first(&mut r, &self.pane_kinds, PaneKind::Repl, enter);
        let ghost before = effects_view(r@);
        r.push(Effect::RecordTranscript { sent: owned(text) });
        assert(effects_view(r@) =~= before.push(EffectView::RecordTranscript { sent: text@ }));
        assert(effects_view(r@) =~= repl_send_effects(self.pane_kinds@, text@));
        r
    }

    /// Sends `text` to the first editor (see [`editor_insert_bytes`]);
    /// nothing for empty text.
    pub fn send_to_editor(&self, text: &str) -> (r: Vec<Effect>)
        ensures
            text@.len() == 0 ==> r@.len() == 0,
            text@.len() > 0 ==> effects_view(r@) == write_first(
                self.pane_kinds@,
                PaneKind::Editor,
                editor_insert_bytes(editor_is_nano(self.config), text@),
            ),
    {
        let mut r: Vec<Effect> = Vec::new();
        if text.unicode_len() == 0 {
            return r;
        }
        let nano = self.is_nano();
        let bytes = if nano {
            let mut b: Vec<u8> = Vec::new();
            push_text_bytes(&mut b, text);
            assert(b@ =~= vstd::utf8::encode_utf8(text@));
            b
        } else {
            let prefix = vec![0x1bu8, 0x1bu8, 0x6fu8];
            let suffix = vec![0x1bu8];
            let b = frame_text(prefix, text, &suffix);
            assert(b@ =~= framed(seq![0x1bu8, 0x1bu8, 0x6fu8], text@, seq![0x1bu8]));
            b
        };
        push_write_first(&mut r, &self.pane_kinds, PaneKind::Editor, bytes);
        assert(effects_view(r@) =~= write_first(
            self.pane_kinds@,
            PaneKind::Editor,
            editor_insert_bytes(nano, text@),
        ));
        r
    }
}

/// Whether a jump to slot `pos` keeps the maximize state.
pub open spec fn preserves_maximized(a: AppView, pos: int) -> bool {
    match pane_at_position(a, pos) {
        Some(i) => a.maximized != MaximizedState::Restored && i == a.focus,
        None => false,
    }
}

} // verus!
