//! Key handling: from the state and a key press to the next state, the
//! requests for the panes, and whether the workspace quits.
//!
//! Keys go to an open overlay first; otherwise navigation mode treats them
//! as workspace commands and normal mode forwards them to the focused pane.

use vstd::prelude::*;
use crate::app::{
    App, AppView, Action, Effect, EffectView, InputMode, MaximizedState, Overlay, effects_view,
    editor_is_nano, entries_view, frame_text, framed, opt_str, open_file_bytes, pane_at_position,
    preserves_maximized, push_write_all, push_write_first, save_all_bytes, write_all, write_first,
};
use crate::keys::{KeyCode, KeyEvent, key_bytes, key_event_to_bytes, ALT, CONTROL, CONTROL_SHIFT};
use crate::pane::{PaneKind, first_of_kind, position_of_kind};
use crate::text::{pop_char, push_char};

verus! {

/// The outcome of one key in the model: the next state, what the event
/// loop does, and the requests for the panes in order.
pub struct Step {
    pub app: AppView,
    pub action: Action,
    pub effects: Seq<EffectView>,
}

/// The outcome of one key: what the event loop does and the requests for the panes.
pub struct KeyOutcome {
    pub action: Action,
    pub effects: Vec<Effect>,
}

/// A step that goes on with the given state and requests.
pub open spec fn go_on(a: AppView, effects: Seq<EffectView>) -> Step {
    Step { app: a, action: Action::Continue, effects }
}

/// One request for the focused pane, when the focus names a pane.
pub open spec fn on_focused(a: AppView, e: EffectView) -> Seq<EffectView> {
    if a.focus < a.pane_kinds.len() {
        seq![e]
    } else {
        Seq::empty()
    }
}

/// Whether the focused pane is the transcript.
pub open spec fn transcript_focused(a: AppView) -> bool {
    a.focus < a.pane_kinds.len() && a.pane_kinds[a.focus as int] == PaneKind::Transcript
}

/// The focus after a jump to `target`; it stays where it is when there is no target.
pub open spec fn focus_to(a: AppView, target: Option<int>) -> usize {
    match target {
        Some(i) => i as usize,
        None => a.focus,
    }
}

/// What the REPL is sent to explain the variable `name`: `explain(<name>)` and Enter.
pub open spec fn explain_bytes(name: Seq<char>) -> Seq<u8> {
    framed(seq![0x65u8, 0x78u8, 0x70u8, 0x6cu8, 0x61u8, 0x69u8, 0x6eu8, 0x28u8], name, seq![0x29u8, 13u8])
}

/// What the editor is sent to switch to buffer `number`: Esc Esc `:b <number>` Enter.
pub open spec fn buffer_switch_bytes(number: Seq<char>) -> Seq<u8> {
    framed(seq![0x1bu8, 0x1bu8, 0x3au8, 0x62u8, 0x20u8], number, seq![13u8])
}

/// What the editor is sent to list its buffers into `/tmp/atelier-buffers.txt`.
pub open spec fn list_buffers_bytes() -> Seq<u8> {
    seq![0x1bu8, 0x1bu8] + vstd::utf8::encode_utf8(
        ":redir! > /tmp/atelier-buffers.txt | silent ls | redir END"@,
    ) + seq![13u8]
}

/// A key in normal mode: Alt-Space enters navigation mode, Ctrl-d opens the
/// quit prompt, Ctrl-c interrupts the focused pane, Ctrl-Tab and
/// Ctrl-Shift-Tab switch its tab, Alt-Up and Alt-Down scroll it, and Enter
/// on an explainable variable asks the REPL to explain it; any other key
/// goes to the focused pane as its bytes.
pub open spec fn normal_step(a: AppView, k: KeyEvent, explain: Option<Seq<char>>) -> Step {
    let f = a.focus;
    if k.code == KeyCode::Char(' ') && k.modifiers == ALT {
        go_on(AppView { mode: InputMode::Navigation, ..a }, Seq::empty())
    } else if k.code == KeyCode::Char('d') && k.modifiers == CONTROL {
        go_on(AppView { overlay: Some(Overlay::QuitConfirm), ..a }, Seq::empty())
    } else if k.code == KeyCode::Char('c') && k.modifiers == CONTROL {
        go_on(a, on_focused(a, EffectView::Write { pane: f, bytes: seq![3u8] }))
    } else if k.code == KeyCode::Tab && k.modifiers == CONTROL {
        go_on(a, on_focused(a, EffectView::SwitchTab { pane: f, delta: 1 }))
    } else if k.code == KeyCode::Tab && k.modifiers == CONTROL_SHIFT {
        go_on(a, on_focused(a, EffectView::SwitchTab { pane: f, delta: -1i8 }))
    } else if k.code == KeyCode::Up && k.modifiers == ALT {
        go_on(a, on_focused(a, EffectView::Scroll { pane: f, rows: 3 }))
    } else if k.code == KeyCode::Down && k.modifiers == ALT {
        go_on(a, on_focused(a, EffectView::Scroll { pane: f, rows: -3i16 }))
    } else if k.code == KeyCode::Enter && f < a.pane_kinds.len() && explain is Some {
        go_on(a, write_first(a.pane_kinds, PaneKind::Repl, explain_bytes(explain->0)))
    } else {
        go_on(a, on_focused(a, EffectView::Write { pane: f, bytes: key_bytes(k) }))
    }
}

/// Focuses the pane of slot `pos` (0 to 3); the maximize state is kept
/// only when the slot already shows the focused pane.
#[verifier::opaque]
pub open spec fn jump_to_slot(a: AppView, pos: int) -> AppView {
    AppView {
        focus: focus_to(a, pane_at_position(a, pos)),
        maximized: if preserves_maximized(a, pos) { a.maximized } else { MaximizedState::Restored },
        mode: InputMode::Normal,
        ..a
    }
}

/// Leaves the transcript for the pane of slot 0, with nothing maximized.
#[verifier::opaque]
pub open spec fn leave_transcript(a: AppView) -> AppView {
    AppView {
        maximized: MaximizedState::Restored,
        focus: focus_to(a, pane_at_position(a, 0)),
        mode: InputMode::Normal,
        ..a
    }
}

/// `m` toggles the full maximize of the focused pane.
pub open spec fn toggle_full(a: AppView) -> AppView {
    if transcript_focused(a) {
        if a.maximized == MaximizedState::Full {
            leave_transcript(a)
        } else {
            AppView { maximized: MaximizedState::Full, mode: InputMode::Normal, ..a }
        }
    } else {
        AppView {
            maximized: if a.maximized == MaximizedState::Full {
                MaximizedState::Restored
            } else {
                MaximizedState::Full
            },
            mode: InputMode::Normal,
            ..a
        }
    }
}

/// `v` and `h` toggle the vertical or horizontal maximize; from the transcript they leave it.
pub open spec fn toggle_half(a: AppView, m: MaximizedState) -> AppView {
    if transcript_focused(a) {
        leave_transcript(a)
    } else {
        AppView {
            maximized: if a.maximized == m { MaximizedState::Restored } else { m },
            mode: InputMode::Normal,
            ..a
        }
    }
}

/// The state with normal mode back.
pub open spec fn back_to_normal(a: AppView) -> AppView {
    AppView { mode: InputMode::Normal, ..a }
}

/// Navigation keys that move the focus: `1`-`4` (slots), `5`/`t` (transcript),
/// `c` (plot), `d` (diagram), `l` (the assistant tab of slot 4) and `a`
/// (slot 4 as it is); `l` and `a` also ask for fresh context.
pub open spec fn is_focus_char(c: char) -> bool {
    c == '1' || c == '2' || c == '3' || c == '4' || c == '5' || c == 't' || c == 'c' || c == 'd' || c == 'a'
        || c == 'l'
}

/// Navigation keys that change the maximize state.
pub open spec fn is_layout_char(c: char) -> bool {
    c == 'm' || c == 'v' || c == 'h' || c == '='
}

/// Focus keys in navigation mode.
#[verifier::opaque]
pub open spec fn nav_focus(a: AppView, c: char) -> Step {
    let back = back_to_normal(a);
    if c == '1' {
        go_on(jump_to_slot(a, 0), Seq::empty())
    } else if c == '2' {
        go_on(jump_to_slot(a, 1), Seq::empty())
    } else if c == '3' {
        go_on(jump_to_slot(a, 2), Seq::empty())
    } else if c == '4' {
        go_on(jump_to_slot(a, 3), Seq::empty())
    } else if c == '5' || c == 't' {
        match first_of_kind(a.pane_kinds, PaneKind::Transcript) {
            Some(i) => go_on(AppView { focus: i as usize, maximized: MaximizedState::Full, ..back }, Seq::empty()),
            None => go_on(back, Seq::empty()),
        }
    } else if c == 'c' {
        match pane_at_position(a, 2) {
            Some(i) => go_on(
                AppView { focus: i as usize, maximized: MaximizedState::Full, ..back },
                seq![EffectView::SwitchToTab { pane: i as usize, kind: PaneKind::Plot }],
            ),
            None => go_on(back, Seq::empty()),
        }
    } else if c == 'd' {
        match first_of_kind(a.pane_kinds, PaneKind::Diagram) {
            Some(i) => go_on(AppView { focus: i as usize, maximized: MaximizedState::Full, ..back }, Seq::empty()),
            None => go_on(back, Seq::empty()),
        }
    } else if c == 'l' {
        match pane_at_position(a, 3) {
            Some(i) => go_on(
                AppView { focus: i as usize, ..back },
                seq![
                    EffectView::SwitchToTab { pane: i as usize, kind: PaneKind::Llm },
                    EffectView::RefreshLlmContext,
                ],
            ),
            None => go_on(back, seq![EffectView::RefreshLlmContext]),
        }
    } else {
        go_on(
            AppView { focus: focus_to(a, pane_at_position(a, 3)), ..back },
            seq![EffectView::RefreshLlmContext],
        )
    }
}

/// Maximize keys in navigation mode.
#[verifier::opaque]
pub open spec fn nav_layout(a: AppView, c: char) -> Step {
    if c == 'm' {
        go_on(toggle_full(a), Seq::empty())
    } else if c == 'v' {
        go_on(toggle_half(a, MaximizedState::Vertical), Seq::empty())
    } else if c == 'h' {
        go_on(toggle_half(a, MaximizedState::Horizontal), Seq::empty())
    } else if transcript_focused(a) {
        go_on(leave_transcript(a), Seq::empty())
    } else {
        go_on(AppView { maximized: MaximizedState::Restored, ..back_to_normal(a) }, Seq::empty())
    }
}

/// `j`/Down (positive `down`) or `k`/Up in navigation mode: the transcript
/// moves its selection one entry later or earlier and navigation mode stays;
/// without a transcript the key only leaves navigation mode.
pub open spec fn scroll_transcript(a: AppView, down: bool) -> Step {
    match first_of_kind(a.pane_kinds, PaneKind::Transcript) {
        Some(t) => go_on(a, seq![EffectView::Scroll { pane: t as usize, rows: if down { -1i16 } else { 1i16 } }]),
        None => go_on(back_to_normal(a), Seq::empty()),
    }
}

/// The other character keys in navigation mode: overlays and sending text.
#[verifier::opaque]
pub open spec fn nav_command(a: AppView, c: char) -> Step {
    let back = back_to_normal(a);
    if c == 'o' {
        if transcript_focused(a) {
            go_on(a, seq![EffectView::SendToEditor])
        } else {
            go_on(back, Seq::empty())
        }
    } else if c == 'q' {
        go_on(AppView { overlay: Some(Overlay::QuitConfirm), ..back }, Seq::empty())
    } else if c == 'f' {
        go_on(
            AppView { filetree_current: a.filetree_base, overlay: Some(Overlay::FileTree), ..back },
            seq![EffectView::RefreshFiletree],
        )
    } else if c == 'b' {
        go_on(
            AppView { overlay: Some(Overlay::BufferList), buffer_input: Seq::empty(), ..back },
            write_all(a.pane_kinds, PaneKind::Editor, list_buffers_bytes(), a.pane_kinds.len() as int),
        )
    } else if c == '?' {
        go_on(AppView { overlay: Some(Overlay::Help), ..back }, Seq::empty())
    } else if c == 'e' {
        go_on(back, seq![EffectView::SendClipboardToRepl])
    } else if c == 'j' {
        scroll_transcript(a, true)
    } else if c == 'k' {
        scroll_transcript(a, false)
    } else if c == 'r' {
        go_on(back, seq![EffectView::SendToRepl { region: true }])
    } else if c == 'p' {
        go_on(
            AppView { project_switcher_selection: 0, overlay: Some(Overlay::ProjectSwitcher), ..back },
            seq![EffectView::LoadRecentProjects],
        )
    } else {
        go_on(back, Seq::empty())
    }
}

/// A key in navigation mode.
///
/// Alt-Up and Alt-Down scroll the focused pane, Tab and BackTab switch its
/// tab, `j`/Down and `k`/Up scroll the transcript, and Enter on the
/// transcript sends the selection to the REPL; these keep navigation mode. Every other key returns to normal mode after its
/// command (Esc and unknown keys have none).
pub open spec fn nav_step(a: AppView, k: KeyEvent) -> Step {
    let f = a.focus;
    if k.modifiers == ALT && k.code == KeyCode::Up {
        go_on(a, on_focused(a, EffectView::Scroll { pane: f, rows: 3 }))
    } else if k.modifiers == ALT && k.code == KeyCode::Down {
        go_on(a, on_focused(a, EffectView::Scroll { pane: f, rows: -3i16 }))
    } else {
        match k.code {
            KeyCode::Char(c) => if is_focus_char(c) {
                nav_focus(a, c)
            } else if is_layout_char(c) {
                nav_layout(a, c)
            } else {
                nav_command(a, c)
            },
            KeyCode::Enter => if transcript_focused(a) {
                go_on(a, seq![EffectView::SendToRepl { region: false }])
            } else {
                go_on(back_to_normal(a), Seq::empty())
            },
            KeyCode::Tab => go_on(a, on_focused(a, EffectView::SwitchTab { pane: f, delta: 1 })),
            KeyCode::BackTab => go_on(a, on_focused(a, EffectView::SwitchTab { pane: f, delta: -1i8 })),
            KeyCode::Down => scroll_transcript(a, true),
            KeyCode::Up => scroll_transcript(a, false),
            _ => go_on(back_to_normal(a), Seq::empty()),
        }
    }
}

/// A key while the file tree is open.
pub open spec fn filetree_step(a: AppView, k: KeyEvent) -> Step {
    match k.code {
        KeyCode::Esc | KeyCode::Char('q') => go_on(AppView { overlay: None, ..a }, Seq::empty()),
        KeyCode::Up | KeyCode::Char('k') => go_on(
            AppView {
                filetree_selection: if a.filetree_selection > 0 {
                    (a.filetree_selection - 1) as usize
                } else {
                    a.filetree_selection
                },
                ..a
            },
            Seq::empty(),
        ),
        KeyCode::Down | KeyCode::Char('j') => go_on(
            AppView {
                filetree_selection: if a.filetree_selection + 1 < a.filetree_entries.len() {
                    (a.filetree_selection + 1) as usize
                } else {
                    a.filetree_selection
                },
                ..a
            },
            Seq::empty(),
        ),
        KeyCode::Enter => if a.filetree_selection < a.filetree_entries.len() {
            let (path, is_dir) = a.filetree_entries[a.filetree_selection as int];
            if is_dir {
                if path == ".."@ {
                    go_on(a, seq![EffectView::EnterParentDir])
                } else {
                    go_on(AppView { filetree_current: path, ..a }, seq![EffectView::RefreshFiletree])
                }
            } else {
                go_on(
                    AppView { overlay: None, ..a },
                    write_first(a.pane_kinds, PaneKind::Editor, open_file_bytes(editor_is_nano(a.config), path)),
                )
            }
        } else {
            go_on(a, Seq::empty())
        },
        _ => go_on(a, Seq::empty()),
    }
}

/// A key while the buffer list is open: digits name a buffer, Enter switches to it.
pub open spec fn buffer_list_step(a: AppView, k: KeyEvent) -> Step {
    match k.code {
        KeyCode::Esc | KeyCode::Char('q') => go_on(AppView { overlay: None, ..a }, Seq::empty()),
        KeyCode::Char(' ') => if a.buffer_input.len() == 0 {
            go_on(AppView { overlay: None, ..a }, Seq::empty())
        } else {
            go_on(a, Seq::empty())
        },
        KeyCode::Char(c) => if '0' <= c <= '9' {
            go_on(AppView { buffer_input: a.buffer_input.push(c), ..a }, Seq::empty())
        } else {
            go_on(a, Seq::empty())
        },
        KeyCode::Backspace => go_on(
            AppView {
                buffer_input: if a.buffer_input.len() > 0 {
                    a.buffer_input.drop_last()
                } else {
                    a.buffer_input
                },
                ..a
            },
            Seq::empty(),
        ),
        KeyCode::Enter => if a.buffer_input.len() > 0 {
            go_on(
                AppView { overlay: None, ..a },
                write_all(a.pane_kinds, PaneKind::Editor, buffer_switch_bytes(a.buffer_input), a.pane_kinds.len() as int),
            )
        } else {
            go_on(a, Seq::empty())
        },
        _ => go_on(a, Seq::empty()),
    }
}

/// A key while the project switcher is open.
pub open spec fn switcher_step(a: AppView, k: KeyEvent) -> Step {
    match k.code {
        KeyCode::Esc | KeyCode::Char('q') => go_on(AppView { overlay: None, ..a }, Seq::empty()),
        KeyCode::Up | KeyCode::Char('k') => go_on(
            AppView {
                project_switcher_selection: if a.project_switcher_selection > 0 {
                    (a.project_switcher_selection - 1) as usize
                } else {
                    a.project_switcher_selection
                },
                ..a
            },
            Seq::empty(),
        ),
        KeyCode::Down | KeyCode::Char('j') => go_on(
            AppView {
                project_switcher_selection: if a.project_switcher_selection + 1 < a.recent_projects.len() {
                    (a.project_switcher_selection + 1) as usize
                } else {
                    a.project_switcher_selection
                },
                ..a
            },
            Seq::empty(),
        ),
        KeyCode::Enter => if a.project_switcher_selection < a.recent_projects.len() {
            go_on(
                AppView {
                    should_relaunch: Some(a.recent_projects[a.project_switcher_selection as int]),
                    overlay: None,
                    ..a
                },
                Seq::empty(),
            )
        } else {
            go_on(a, Seq::empty())
        },
        _ => go_on(a, Seq::empty()),
    }
}

/// A key while an overlay is open.
pub open spec fn overlay_step(a: AppView, k: KeyEvent) -> Step {
    match a.overlay {
        Some(Overlay::FileTree) => filetree_step(a, k),
        Some(Overlay::BufferList) => buffer_list_step(a, k),
        Some(Overlay::Help) => match k.code {
            KeyCode::Esc | KeyCode::Char('q') | KeyCode::Char(' ') => go_on(AppView { overlay: None, ..a }, Seq::empty()),
            _ => go_on(a, Seq::empty()),
        },
        Some(Overlay::QuitConfirm) => match k.code {
            KeyCode::Char('y') => Step {
                app: AppView { should_quit: true, ..a },
                action: Action::Quit,
                effects: write_first(a.pane_kinds, PaneKind::Editor, save_all_bytes(editor_is_nano(a.config))),
            },
            KeyCode::Char('n') | KeyCode::Esc => go_on(AppView { overlay: None, ..a }, Seq::empty()),
            _ => go_on(a, Seq::empty()),
        },
        Some(Overlay::ProjectSwitcher) => switcher_step(a, k),
        None => go_on(a, Seq::empty()),
    }
}

/// One key press. `explain` is the variable name the focused pane offers
/// to explain, if any.
pub open spec fn key_step(a: AppView, k: KeyEvent, explain: Option<Seq<char>>) -> Step {
    if a.overlay is Some {
        overlay_step(a, k)
    } else if a.mode == InputMode::Navigation {
        nav_step(a, k)
    } else {
        normal_step(a, k, explain)
    }
}

/// Whether a key outcome matches a step of the model.
pub open spec fn outcome_matches(out: KeyOutcome, s: Step) -> bool {
    out.action == s.action && effects_view(out.effects@) == s.effects
}

/// An outcome that goes on with no requests.
fn nothing() -> (out: KeyOutcome)
    ensures
        out.action == Action::Continue,
        effects_view(out.effects@) == Seq::<EffectView>::empty(),
{
    let effects: Vec<Effect> = Vec::new();
    assert(effects_view(effects@) =~= Seq::<EffectView>::empty());
    KeyOutcome { action: Action::Continue, effects }
}

/// An outcome that goes on with one request.
fn just(e: Effect) -> (out: KeyOutcome)
    ensures
        out.action == Action::Continue,
        effects_view(out.effects@) == seq![e@],
{
    let effects: Vec<Effect> = vec![e];
    assert(effects_view(effects@) =~= seq![e@]);
    KeyOutcome { action: Action::Continue, effects }
}

/// One request for the focused pane, when the focus names a pane.
fn for_focused(app: &App, e: Effect) -> (out: KeyOutcome)
    requires
        e@ matches EffectView::Write { pane, .. } ==> pane == app.focus,
    ensures
        out.action == Action::Continue,
        effects_view(out.effects@) == on_focused(app@, e@),
{
    if app.focus < app.pane_kinds.len() {
        just(e)
    } else {
        nothing()
    }
}

/// Whether the focused pane is the transcript.
fn is_transcript_focused(app: &App) -> (r: bool)
    ensures
        r == transcript_focused(app@),
{
    app.focus < app.pane_kinds.len() && app.pane_kinds[app.focus] == PaneKind::Transcript
}

/// The bytes that ask the REPL to explain `name`.
fn explain_message(name: &str) -> (r: Vec<u8>)
    ensures
        r@ == explain_bytes(name@),
{
    frame_text(vec![0x65u8, 0x78u8, 0x70u8, 0x6cu8, 0x61u8, 0x69u8, 0x6eu8, 0x28u8], name, &vec![0x29u8, 13u8])
}

fn handle_normal_key(app: &mut App, key: KeyEvent, explain: Option<&str>) -> (out: KeyOutcome)
    requires
        old(app).overlay is None,
        old(app).mode == InputMode::Normal,
    ensures
        final(app)@ == normal_step(old(app)@, key, opt_str(explain)).app,
        outcome_matches(out, normal_step(old(app)@, key, opt_str(explain))),
{
    let f = app.focus;
    let code = key.code;
    let mods = key.modifiers;
    if code == KeyCode::Char(' ') && mods == ALT {
        app.mode = InputMode::Navigation;
        nothing()
    } else if code == KeyCode::Char('d') && mods == CONTROL {
        app.overlay = Some(Overlay::QuitConfirm);
        nothing()
    } else if code == KeyCode::Char('c') && mods == CONTROL {
        let b = vec![3u8];
        assert(b@ =~= seq![3u8]);
        for_focused(app, Effect::Write { pane: f, bytes: b })
    } else if code == KeyCode::Tab && mods == CONTROL {
        for_focused(app, Effect::SwitchTab { pane: f, delta: 1 })
    } else if code == KeyCode::Tab && mods == CONTROL_SHIFT {
        for_focused(app, Effect::SwitchTab { pane: f, delta: -1 })
    } else if code == KeyCode::Up && mods == ALT {
        for_focused(app, Effect::Scroll { pane: f, rows: 3 })
    } else if code == KeyCode::Down && mods == ALT {
        for_focused(app, Effect::Scroll { pane: f, rows: -3 })
    } else if code == KeyCode::Enter && f < app.pane_kinds.len() && explain.is_some() {
        let name = explain.unwrap();
        let mut effects: Vec<Effect> = Vec::new();
        push_write_first(&mut effects, &app.pane_kinds, PaneKind::Repl, explain_message(name));
        assert(effects_view(effects@) =~= write_first(app.pane_kinds@, PaneKind::Repl, explain_bytes(name@)));
        KeyOutcome { action: Action::Continue, effects }
    } else {
        for_focused(app, Effect::Write { pane: f, bytes: key_event_to_bytes(key) })
    }
}

fn jump_to_slot_exec(app: &mut App, pos: usize)
    requires
        pos < 4,
    ensures
        final(app)@ == jump_to_slot(old(app)@, pos as int),
{
    reveal(jump_to_slot);
    let preserve = app.should_preserve_maximized(pos);
    if let Some(idx) = app.pane_index_at_physical_pos(pos) {
        app.focus = idx;
    }
    if !preserve {
        app.maximized = MaximizedState::Restored;
    }
    app.mode = InputMode::Normal;
}

fn leave_transcript_exec(app: &mut App)
    ensures
        final(app)@ == leave_transcript(old(app)@),
{
    reveal(leave_transcript);
    app.maximized = MaximizedState::Restored;
    if let Some(idx) = app.pane_index_at_physical_pos(0) {
        app.focus = idx;
    }
    app.mode = InputMode::Normal;
}

/// Focuses the first pane of `kind` with the pane maximized; returns whether there was one.
fn focus_kind_full(app: &mut App, kind: PaneKind)
    ensures
        final(app)@ == (match first_of_kind(old(app)@.pane_kinds, kind) {
            Some(i) => AppView {
                focus: i as usize,
                maximized: MaximizedState::Full,
                mode: InputMode::Normal,
                ..old(app)@
            },
            None => AppView { mode: InputMode::Normal, ..old(app)@ },
        }),
{
    if let Some(idx) = position_of_kind(&app.pane_kinds, kind) {
        app.focus = idx;
        app.maximized = MaximizedState::Full;
    }
    app.mode = InputMode::Normal;
}

/// The bytes that make the editor list its buffers into a file.
fn list_buffers_message() -> (r: Vec<u8>)
    ensures
        r@ == list_buffers_bytes(),
{
    let r = frame_text(vec![0x1bu8, 0x1bu8], ":redir! > /tmp/atelier-buffers.txt | silent ls | redir END", &vec![13u8]);
    r
}

#[verifier::rlimit(40)]
fn nav_focus_exec(app: &mut App, c: char) -> (out: KeyOutcome)
    requires
        is_focus_char(c),
    ensures
        final(app)@ == nav_focus(old(app)@, c).app,
        outcome_matches(out, nav_focus(old(app)@, c)),
{
    reveal(nav_focus);
    if c == '1' {
        jump_to_slot_exec(app, 0);
        nothing()
    } else if c == '2' {
        jump_to_slot_exec(app, 1);
        nothing()
    } else if c == '3' {
        jump_to_slot_exec(app, 2);
        nothing()
    } else if c == '4' {
        jump_to_slot_exec(app, 3);
        nothing()
    } else if c == '5' || c == 't' {
        focus_kind_full(app, PaneKind::Transcript);
        nothing()
    } else if c == 'c' {
        let target = app.pane_index_at_physical_pos(2);
        app.mode = InputMode::Normal;
        match target {
            Some(idx) => {
                app.focus = idx;
                app.maximized = MaximizedState::Full;
                just(Effect::SwitchToTab { pane: idx, kind: PaneKind::Plot })
            },
            None => nothing(),
        }
    } else if c == 'd' {
        focus_kind_full(app, PaneKind::Diagram);
        nothing()
    } else if c == 'a' {
        if let Some(idx) = app.pane_index_at_physical_pos(3) {
            app.focus = idx;
        }
        app.mode = InputMode::Normal;
        just(Effect::RefreshLlmContext)
    } else {
        let target = app.pane_index_at_physical_pos(3);
        app.mode = InputMode::Normal;
        match target {
            Some(idx) => {
                app.focus = idx;
                let effects = vec![Effect::SwitchToTab { pane: idx, kind: PaneKind::Llm }, Effect::RefreshLlmContext];
                assert(effects_view(effects@) =~= seq![
                    EffectView::SwitchToTab { pane: idx, kind: PaneKind::Llm },
                    EffectView::RefreshLlmContext,
                ]);
                KeyOutcome { action: Action::Continue, effects }
            },
            None => just(Effect::RefreshLlmContext),
        }
    }
}

/// Scrolls the transcript one entry (see [`scroll_transcript`]).
fn scroll_transcript_exec(app: &mut App, down: bool) -> (out: KeyOutcome)
    ensures
        final(app)@ == scroll_transcript(old(app)@, down).app,
        outcome_matches(out, scroll_transcript(old(app)@, down)),
{
    match position_of_kind(&app.pane_kinds, PaneKind::Transcript) {
        Some(t) => just(Effect::Scroll { pane: t, rows: if down { -1 } else { 1 } }),
        None => {
            app.mode = InputMode::Normal;
            nothing()
        },
    }
}

fn nav_layout_exec(app: &mut App, c: char) -> (out: KeyOutcome)
    requires
        is_layout_char(c),
    ensures
        final(app)@ == nav_layout(old(app)@, c).app,
        outcome_matches(out, nav_layout(old(app)@, c)),
{
    reveal(nav_layout);
    if c == 'm' {
        if is_transcript_focused(app) {
            if app.maximized == MaximizedState::Full {
                leave_transcript_exec(app);
            } else {
                app.maximized = MaximizedState::Full;
                app.mode = InputMode::Normal;
            }
        } else {
            app.maximized = if app.maximized == MaximizedState::Full {
                MaximizedState::Restored
            } else {
                MaximizedState::Full
            };
            app.mode = InputMode::Normal;
        }
    } else if c == 'v' || c == 'h' {
        let m = if c == 'v' { MaximizedState::Vertical } else { MaximizedState::Horizontal };
        if is_transcript_focused(app) {
            leave_transcript_exec(app);
        } else {
            app.maximized = if app.maximized == m {
                MaximizedState::Restored
            } else {
                m
            };
            app.mode = InputMode::Normal;
        }
    } else {
        if is_transcript_focused(app) {
            leave_transcript_exec(app);
        } else {
            app.maximized = MaximizedState::Restored;
            app.mode = InputMode::Normal;
        }
    }
    nothing()
}

fn nav_command_exec(app: &mut App, c: char) -> (out: KeyOutcome)
    ensures
        final(app)@ == nav_command(old(app)@, c).app,
        outcome_matches(out, nav_command(old(app)@, c)),
{
    reveal(nav_command);
    if c == 'o' {
        if is_transcript_focused(app) {
            just(Effect::SendToEditor)
        } else {
            app.mode = InputMode::Normal;
            nothing()
        }
    } else if c == 'q' {
        app.overlay = Some(Overlay::QuitConfirm);
        app.mode = InputMode::Normal;
        nothing()
    } else if c == 'f' {
        app.filetree_current = app.filetree_base.clone();
        app.overlay = Some(Overlay::FileTree);
        app.mode = InputMode::Normal;
        just(Effect::RefreshFiletree)
    } else if c == 'b' {
        app.overlay = Some(Overlay::BufferList);
        app.buffer_input = String::new();
        app.mode = InputMode::Normal;
        let mut effects: Vec<Effect> = Vec::new();
        let msg = list_buffers_message();
        push_write_all(&mut effects, &app.pane_kinds, PaneKind::Editor, &msg);
        assert(effects_view(effects@) =~= write_all(
            app.pane_kinds@,
            PaneKind::Editor,
            list_buffers_bytes(),
            app.pane_kinds@.len() as int,
        ));
        KeyOutcome { action: Action::Continue, effects }
    } else if c == '?' {
        app.overlay = Some(Overlay::Help);
        app.mode = InputMode::Normal;
        nothing()
    } else if c == 'e' {
        app.mode = InputMode::Normal;
        just(Effect::SendClipboardToRepl)
    } else if c == 'j' {
        scroll_transcript_exec(app, true)
    } else if c == 'k' {
        scroll_transcript_exec(app, false)
    } else if c == 'r' {
        app.mode = InputMode::Normal;
        just(Effect::SendToRepl { region: true })
    } else if c == 'p' {
        app.project_switcher_selection = 0;
        app.overlay = Some(Overlay::ProjectSwitcher);
        app.mode = InputMode::Normal;
        just(Effect::LoadRecentProjects)
    } else {
        app.mode = InputMode::Normal;
        nothing()
    }
}

fn handle_navigation_key(app: &mut App, key: KeyEvent) -> (out: KeyOutcome)
    requires
        old(app).overlay is None,
        old(app).mode == InputMode::Navigation,
    ensures
        final(app)@ == nav_step(old(app)@, key).app,
        outcome_matches(out, nav_step(old(app)@, key)),
{
    let f = app.focus;
    if key.modifiers == ALT && key.code == KeyCode::Up {
        return for_focused(app, Effect::Scroll { pane: f, rows: 3 });
    }
    if key.modifiers == ALT && key.code == KeyCode::Down {
        return for_focused(app, Effect::Scroll { pane: f, rows: -3 });
    }
    match key.code {
        KeyCode::Char(c) => {
            if c == '1' || c == '2' || c == '3' || c == '4' || c == '5' || c == 't' || c == 'c'
                || c == 'd' || c == 'a' || c == 'l' {
                nav_focus_exec(app, c)
            } else if c == 'm' || c == 'v' || c == 'h' || c == '=' {
                nav_layout_exec(app, c)
            } else {
                nav_command_exec(app, c)
            }
        },
        KeyCode::Enter => {
            if is_transcript_focused(app) {
                just(Effect::SendToRepl { region: false })
            } else {
                app.mode = InputMode::Normal;
                nothing()
            }
        },
        KeyCode::Tab => for_focused(app, Effect::SwitchTab { pane: f, delta: 1 }),
        KeyCode::BackTab => for_focused(app, Effect::SwitchTab { pane: f, delta: -1 }),
        KeyCode::Down => scroll_transcript_exec(app, true),
        KeyCode::Up => scroll_transcript_exec(app, false),
        _ => {
            app.mode = InputMode::Normal;
            nothing()
        },
    }
}

fn handle_filetree_key(app: &mut App, key: KeyEvent) -> (out: KeyOutcome)
    requires
        old(app).overlay == Some(Overlay::FileTree),
    ensures
        final(app)@ == filetree_step(old(app)@, key).app,
        outcome_matches(out, filetree_step(old(app)@, key)),
{
    match key.code {
        KeyCode::Esc | KeyCode::Char('q') => {
            app.overlay = None;
            nothing()
        },
        KeyCode::Up | KeyCode::Char('k') => {
            if app.filetree_selection > 0 {
                app.filetree_selection = app.filetree_selection - 1;
            }
            nothing()
        },
        KeyCode::Down | KeyCode::Char('j') => {
            if app.filetree_selection < app.filetree_entries.len()
                && app.filetree_selection + 1 < app.filetree_entries.len() {
                app.filetree_selection = app.filetree_selection + 1;
            }
            nothing()
        },
        KeyCode::Enter => {
            if app.filetree_selection < app.filetree_entries.len() {
                let is_dir = app.filetree_entries[app.filetree_selection].1;
                let path = app.filetree_entries[app.filetree_selection].0.clone();
                assert(path@ == entries_view(app.filetree_entries@)[app.filetree_selection as int].0);
                if is_dir {
                    if str_is_parent_marker(path.as_str()) {
                        just(Effect::EnterParentDir)
                    } else {
                        app.filetree_current = path;
                        just(Effect::RefreshFiletree)
                    }
                } else {
                    let effects = app.open_in_editor(path.as_str());
                    app.overlay = None;
                    KeyOutcome { action: Action::Continue, effects }
                }
            } else {
                nothing()
            }
        },
        _ => nothing(),
    }
}

/// Whether a file tree entry is the `..` entry.
fn str_is_parent_marker(s: &str) -> (r: bool)
    ensures
        r == (s@ == ".."@),
{
    crate::text::str_eq(s, "..")
}

fn handle_buffer_list_key(app: &mut App, key: KeyEvent) -> (out: KeyOutcome)
    requires
        old(app).overlay == Some(Overlay::BufferList),
    ensures
        final(app)@ == buffer_list_step(old(app)@, key).app,
        outcome_matches(out, buffer_list_step(old(app)@, key)),
{
    match key.code {
        KeyCode::Esc | KeyCode::Char('q') => {
            app.overlay = None;
            nothing()
        },
        KeyCode::Char(' ') => {
            if app.buffer_input.as_str().unicode_len() == 0 {
                app.overlay = None;
            }
            nothing()
        },
        KeyCode::Char(c) => {
            if '0' <= c && c <= '9' {
                push_char(&mut app.buffer_input, c);
            }
            nothing()
        },
        KeyCode::Backspace => {
            let _ = pop_char(&mut app.buffer_input);
            nothing()
        },
        KeyCode::Enter => {
            if app.buffer_input.as_str().unicode_len() > 0 {
                let prefix = vec![0x1bu8, 0x1bu8, 0x3au8, 0x62u8, 0x20u8];
                let suffix = vec![13u8];
                let msg = frame_text(prefix, app.buffer_input.as_str(), &suffix);
                assert(msg@ =~= buffer_switch_bytes(app.buffer_input@));
                let mut effects: Vec<Effect> = Vec::new();
                push_write_all(&mut effects, &app.pane_kinds, PaneKind::Editor, &msg);
                assert(effects_view(effects@) =~= write_all(
                    app.pane_kinds@,
                    PaneKind::Editor,
                    buffer_switch_bytes(app.buffer_input@),
                    app.pane_kinds@.len() as int,
                ));
                app.overlay = None;
                KeyOutcome { action: Action::Continue, effects }
            } else {
                nothing()
            }
        },
        _ => nothing(),
    }
}

fn handle_switcher_key(app: &mut App, key: KeyEvent) -> (out: KeyOutcome)
    requires
        old(app).overlay == Some(Overlay::ProjectSwitcher),
    ensures
        final(app)@ == switcher_step(old(app)@, key).app,
        outcome_matches(out, switcher_step(old(app)@, key)),
{
    match key.code {
        KeyCode::Esc | KeyCode::Char('q') => {
            app.overlay = None;
            nothing()
        },
        KeyCode::Up | KeyCode::Char('k') => {
            if app.project_switcher_selection > 0 {
                app.project_switcher_selection = app.project_switcher_selection - 1;
            }
            nothing()
        },
        KeyCode::Down | KeyCode::Char('j') => {
            if app.project_switcher_selection < app.recent_projects.len()
                && app.project_switcher_selection + 1 < app.recent_projects.len() {
                app.project_switcher_selection = app.project_switcher_selection + 1;
            }
            nothing()
        },
        KeyCode::Enter => {
            if app.project_switcher_selection < app.recent_projects.len() {
                let path = app.recent_projects[app.project_switcher_selection].clone();
                app.should_relaunch = Some(path);
                app.overlay = None;
            }
            nothing()
        },
        _ => nothing(),
    }
}

fn handle_overlay_key(app: &mut App, key: KeyEvent) -> (out: KeyOutcome)
    requires
        old(app).overlay is Some,
    ensures
        final(app)@ == overlay_step(old(app)@, key).app,
        outcome_matches(out, overlay_step(old(app)@, key)),
{
    match app.overlay {
        Some(Overlay::FileTree) => handle_filetree_key(app, key),
        Some(Overlay::BufferList) => handle_buffer_list_key(app, key),
        Some(Overlay::Help) => {
            match key.code {
                KeyCode::Esc | KeyCode::Char('q') | KeyCode::Char(' ') => {
                    app.overlay = None;
                },
                _ => {},
            }
            nothing()
        },
        Some(Overlay::QuitConfirm) => {
            match key.code {
                KeyCode::Char('y') => {
                    let effects = app.save_all_and_quit();
                    KeyOutcome { action: Action::Quit, effects }
                },
                KeyCode::Char('n') | KeyCode::Esc => {
                    app.overlay = None;
                    nothing()
                },
                _ => nothing(),
            }
        },
        Some(Overlay::ProjectSwitcher) => handle_switcher_key(app, key),
        None => nothing(),
    }
}

/// Handles one key press: an open overlay takes it first, then navigation
/// or normal mode. `explain` is the variable name the focused pane offers
/// to explain (the variables pane's selection), if any.
pub fn handle_key(app: &mut App, key: KeyEvent, explain: Option<&str>) -> (out: KeyOutcome)
    ensures
        final(app)@ == key_step(old(app)@, key, opt_str(explain)).app,
        outcome_matches(out, key_step(old(app)@, key, opt_str(explain))),
{
    if app.overlay.is_some() {
        handle_overlay_key(app, key)
    } else {
        match app.mode {
            InputMode::Navigation => handle_navigation_key(app, key),
            InputMode::Normal => handle_normal_key(app, key, explain),
        }
    }
}

} // verus!
