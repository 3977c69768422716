//! Properties that hold across the library's operations.

use vstd::prelude::*;
use crate::app::{
    AppView, EffectView, InputMode, MaximizedState, Overlay, Action, pane_at_position, write_all, write_first,
    save_all_bytes, open_file_bytes, editor_is_nano,
};
use crate::config::{recent_after_add, other_than, MAX_RECENT};
use crate::csv::{collapse_quotes, unescaped_field};
use crate::diagram::{DiagramView, FileCheck, RenderMsg, StatusView, receive_step, check_step, source_step};
use crate::vars::FileProbe;
use crate::event::{key_step, nav_step, normal_step, overlay_step, Step, toggle_full};
use crate::keys::{KeyCode, KeyEvent, ALT};
use crate::layout::{Region, slot_regions};
use crate::context::{last_index_of, md_history, md_lines, recent_lines};
use crate::plot::{file_name, extension, is_image};
use crate::launch::chosen_editor;
use crate::llm::{LlmState, wants_context};
use crate::pane::{PaneKind, first_of_kind};
use crate::plot::{next_index, prev_index};
use crate::text::{trim, trim_start, trim_end, is_ws};
use crate::vars::window;

verus! {

// ---------------------------------------------------------------------
// Recent projects
// ---------------------------------------------------------------------

/// After a project is opened it is the most recent one.
pub proof fn lemma_recent_front(old: Seq<Seq<char>>, path: Seq<char>)
    ensures
        recent_after_add(old, path).len() > 0,
        recent_after_add(old, path)[0] == path,
{
}

/// The list of recent projects never holds more than ten entries.
pub proof fn lemma_recent_bounded(old: Seq<Seq<char>>, path: Seq<char>)
    ensures
        recent_after_add(old, path).len() <= MAX_RECENT,
{
}

/// After a project is opened it occurs once in the list.
pub proof fn lemma_recent_once(old: Seq<Seq<char>>, path: Seq<char>)
    ensures
        forall|i: int| 0 < i < recent_after_add(old, path).len() ==> recent_after_add(old, path)[i] != path,
{
    let f = old.filter(other_than(path));
    assert forall|i: int| 0 <= i < f.len() implies f[i] != path by {
        old.lemma_filter_pred(other_than(path), i);
    }
    let kept = seq![path] + f;
    assert forall|i: int| 0 < i < recent_after_add(old, path).len() implies recent_after_add(old, path)[i]
        != path by {
        assert(recent_after_add(old, path)[i] == kept[i]);
        assert(kept[i] == f[i - 1]);
    }
}

/// Opening the project that was opened last changes nothing more.
pub proof fn lemma_recent_idempotent(old: Seq<Seq<char>>, path: Seq<char>)
    ensures
        recent_after_add(recent_after_add(old, path), path) == recent_after_add(old, path),
{
    let once = recent_after_add(old, path);
    lemma_recent_once(old, path);
    let tail = once.drop_first();
    assert(once =~= seq![path] + tail);
    assert forall|i: int| 0 <= i < tail.len() implies tail[i] != path by {
        assert(tail[i] == once[i + 1]);
    }
    lemma_filter_keeps_others(seq![path], tail, path);
    assert(once.filter(other_than(path)) =~= tail);
    assert(seq![path] + tail =~= once);
}

/// Filtering out `path` from `[path] + t`, where `t` has no `path`, leaves `t`.
proof fn lemma_filter_keeps_others(head: Seq<Seq<char>>, t: Seq<Seq<char>>, path: Seq<char>)
    requires
        head == seq![path],
        forall|i: int| 0 <= i < t.len() ==> t[i] != path,
    ensures
        (head + t).filter(other_than(path)) == t,
{
    Seq::filter_distributes_over_add(head, t, other_than(path));
    reveal_with_fuel(Seq::filter, 2);
    assert(head.drop_last() =~= Seq::<Seq<char>>::empty());
    assert(head.filter(other_than(path)) =~= Seq::<Seq<char>>::empty());
    lemma_filter_all_pass(t, path);
    assert(Seq::<Seq<char>>::empty() + t =~= t);
}

/// Filtering out `path` from a sequence without it changes nothing.
proof fn lemma_filter_all_pass(t: Seq<Seq<char>>, path: Seq<char>)
    requires
        forall|i: int| 0 <= i < t.len() ==> t[i] != path,
    ensures
        t.filter(other_than(path)) == t,
    decreases t.len(),
{
    if t.len() == 0 {
        reveal_with_fuel(Seq::filter, 1);
    } else {
        let t0 = t.drop_last();
        assert forall|i: int| 0 <= i < t0.len() implies t0[i] != path by {
            assert(t0[i] == t[i]);
        }
        lemma_filter_all_pass(t0, path);
        t0.lemma_filter_push(t.last(), other_than(path));
        assert(t0.push(t.last()) =~= t);
    }
}

// ---------------------------------------------------------------------
// Key handling
// ---------------------------------------------------------------------

/// A key never changes the settings or the panes the workspace has.
pub proof fn lemma_key_keeps_frame(a: AppView, k: KeyEvent, explain: Option<Seq<char>>)
    ensures
        key_step(a, k, explain).app.config == a.config,
        key_step(a, k, explain).app.pane_kinds == a.pane_kinds,
        key_step(a, k, explain).app.filetree_base == a.filetree_base,
{
    if a.overlay is Some {
        lemma_overlay_frame(a, k);
    } else if a.mode == InputMode::Navigation {
        lemma_nav_frame(a, k);
    }
}

proof fn lemma_overlay_frame(a: AppView, k: KeyEvent)
    ensures
        overlay_step(a, k).app.config == a.config,
        overlay_step(a, k).app.pane_kinds == a.pane_kinds,
        overlay_step(a, k).app.filetree_base == a.filetree_base,
        overlay_step(a, k).action == Action::Quit ==> overlay_step(a, k).app.should_quit
            && a.overlay == Some(Overlay::QuitConfirm) && k.code == KeyCode::Char('y'),
{
}

proof fn lemma_nav_frame(a: AppView, k: KeyEvent)
    ensures
        nav_step(a, k).app.config == a.config,
        nav_step(a, k).app.pane_kinds == a.pane_kinds,
        nav_step(a, k).app.filetree_base == a.filetree_base,
        nav_step(a, k).action == Action::Continue,
{
    if let KeyCode::Char(c) = k.code {
        lemma_nav_chars_frame(a, c);
    }
}

proof fn lemma_nav_chars_frame(a: AppView, c: char)
    ensures
        crate::event::nav_focus(a, c).app.config == a.config,
        crate::event::nav_focus(a, c).app.pane_kinds == a.pane_kinds,
        crate::event::nav_focus(a, c).app.filetree_base == a.filetree_base,
        crate::event::nav_focus(a, c).action == Action::Continue,
        crate::event::nav_layout(a, c).app.config == a.config,
        crate::event::nav_layout(a, c).app.pane_kinds == a.pane_kinds,
        crate::event::nav_layout(a, c).app.filetree_base == a.filetree_base,
        crate::event::nav_layout(a, c).action == Action::Continue,
        crate::event::nav_command(a, c).app.config == a.config,
        crate::event::nav_command(a, c).app.pane_kinds == a.pane_kinds,
        crate::event::nav_command(a, c).app.filetree_base == a.filetree_base,
        crate::event::nav_command(a, c).action == Action::Continue,
{
    lemma_nav_focus_frame(a, c);
    lemma_nav_layout_frame(a, c);
    lemma_nav_command_frame(a, c);
}

proof fn lemma_jump_frame(a: AppView, pos: int)
    ensures
        crate::event::jump_to_slot(a, pos).config == a.config,
        crate::event::jump_to_slot(a, pos).pane_kinds == a.pane_kinds,
        crate::event::jump_to_slot(a, pos).filetree_base == a.filetree_base,
{
    reveal(crate::event::jump_to_slot);
}

proof fn lemma_nav_focus_frame(a: AppView, c: char)
    ensures
        crate::event::nav_focus(a, c).app.config == a.config,
        crate::event::nav_focus(a, c).app.pane_kinds == a.pane_kinds,
        crate::event::nav_focus(a, c).app.filetree_base == a.filetree_base,
        crate::event::nav_focus(a, c).action == Action::Continue,
{
    reveal(crate::event::nav_focus);
    lemma_jump_frame(a, 0);
    lemma_jump_frame(a, 1);
    lemma_jump_frame(a, 2);
    lemma_jump_frame(a, 3);
}

proof fn lemma_nav_layout_frame(a: AppView, c: char)
    ensures
        crate::event::nav_layout(a, c).app.config == a.config,
        crate::event::nav_layout(a, c).app.pane_kinds == a.pane_kinds,
        crate::event::nav_layout(a, c).app.filetree_base == a.filetree_base,
        crate::event::nav_layout(a, c).action == Action::Continue,
{
    reveal(crate::event::nav_layout);
    reveal(crate::event::leave_transcript);
}

proof fn lemma_nav_command_frame(a: AppView, c: char)
    ensures
        crate::event::nav_command(a, c).app.config == a.config,
        crate::event::nav_command(a, c).app.pane_kinds == a.pane_kinds,
        crate::event::nav_command(a, c).app.filetree_base == a.filetree_base,
        crate::event::nav_command(a, c).action == Action::Continue,
{
    reveal(crate::event::nav_command);
}

/// Whether the focus names a pane.
pub open spec fn focus_valid(a: AppView) -> bool {
    a.focus < a.pane_kinds.len()
}

proof fn lemma_pane_at_position_valid(a: AppView, pos: int)
    ensures
        pane_at_position(a, pos) matches Some(i) ==> 0 <= i < a.pane_kinds.len(),
{
    if 0 <= pos < a.config.layout.positions@.len() {
        match crate::app::kind_from_position_name(a.config.layout.positions@[pos]@) {
            Some(k) => lemma_first_of_kind_valid(a.pane_kinds, k),
            None => {},
        }
    }
}

proof fn lemma_first_of_kind_valid(kinds: Seq<PaneKind>, k: PaneKind)
    ensures
        first_of_kind(kinds, k) matches Some(i) ==> 0 <= i < kinds.len() && kinds[i] == k,
{
    crate::pane::lemma_first_of_kind(kinds, k);
}

/// A focus that names a pane still names one after any key.
#[verifier::spinoff_prover]
#[verifier::rlimit(40)]
pub proof fn lemma_key_keeps_focus_valid(a: AppView, k: KeyEvent, explain: Option<Seq<char>>)
    requires
        focus_valid(a),
    ensures
        focus_valid(key_step(a, k, explain).app),
{
    reveal(crate::event::nav_focus);
    reveal(crate::event::nav_layout);
    reveal(crate::event::nav_command);
    reveal(crate::event::jump_to_slot);
    reveal(crate::event::leave_transcript);
    lemma_pane_at_position_valid(a, 0);
    lemma_pane_at_position_valid(a, 1);
    lemma_pane_at_position_valid(a, 2);
    lemma_pane_at_position_valid(a, 3);
    lemma_first_of_kind_valid(a.pane_kinds, PaneKind::Transcript);
    lemma_first_of_kind_valid(a.pane_kinds, PaneKind::Diagram);
}

/// The leader key (Alt-Space) in normal mode enters navigation mode and
/// does nothing else.
pub proof fn lemma_leader_enters_navigation(a: AppView, explain: Option<Seq<char>>)
    requires
        a.overlay is None,
        a.mode == InputMode::Normal,
    ensures
        ({
            let s = key_step(a, KeyEvent { code: KeyCode::Char(' '), modifiers: ALT }, explain);
            &&& s.app == AppView { mode: InputMode::Navigation, ..a }
            &&& s.action == Action::Continue
            &&& s.effects.len() == 0
        }),
{
}

/// Esc in navigation mode goes back to normal mode and does nothing else.
pub proof fn lemma_escape_leaves_navigation(a: AppView, mods: u8)
    requires
        a.overlay is None,
        a.mode == InputMode::Navigation,
    ensures
        ({
            let s = key_step(a, KeyEvent { code: KeyCode::Esc, modifiers: mods }, None);
            &&& s.app == AppView { mode: InputMode::Normal, ..a }
            &&& s.action == Action::Continue
            &&& s.effects.len() == 0
        }),
{
}

/// A navigation command is a single key: after any key but the ones that
/// scroll (Alt-Up, Alt-Down, and `j`, `k`, Up, Down on the transcript),
/// switch tabs (Tab, BackTab) or act on the transcript (Enter, `o`), the
/// workspace is back in normal mode.
pub proof fn lemma_navigation_is_one_shot(a: AppView, k: KeyEvent)
    requires
        a.overlay is None,
        a.mode == InputMode::Navigation,
        !(k.modifiers == ALT && (k.code == KeyCode::Up || k.code == KeyCode::Down)),
        k.code != KeyCode::Tab,
        k.code != KeyCode::BackTab,
        k.code != KeyCode::Enter,
        k.code != KeyCode::Char('o'),
        k.code != KeyCode::Up,
        k.code != KeyCode::Down,
        k.code != KeyCode::Char('j'),
        k.code != KeyCode::Char('k'),
    ensures
        key_step(a, k, None).app.mode == InputMode::Normal,
{
    reveal(crate::event::nav_focus);
    reveal(crate::event::nav_layout);
    reveal(crate::event::nav_command);
    reveal(crate::event::jump_to_slot);
    reveal(crate::event::leave_transcript);
}

/// The workspace quits only when `y` answers the quit prompt (which `q` in
/// navigation mode and Ctrl-d open), and then it is marked for quitting.
pub proof fn lemma_quit_only_when_asked(a: AppView, k: KeyEvent, explain: Option<Seq<char>>)
    ensures
        key_step(a, k, explain).action == Action::Quit ==> key_step(a, k, explain).app.should_quit
            && a.overlay == Some(Overlay::QuitConfirm) && k.code == KeyCode::Char('y'),
{
    if a.overlay is Some {
        lemma_overlay_frame(a, k);
    } else if a.mode == InputMode::Navigation {
        lemma_nav_frame(a, k);
    }
}

/// Ctrl-d in normal mode asks first: it opens the quit prompt and does
/// nothing else.
pub proof fn lemma_control_d_asks_first(a: AppView, explain: Option<Seq<char>>)
    requires
        a.overlay is None,
        a.mode == InputMode::Normal,
    ensures
        ({
            let s = key_step(a, KeyEvent { code: KeyCode::Char('d'), modifiers: crate::keys::CONTROL }, explain);
            &&& s.app == AppView { overlay: Some(Overlay::QuitConfirm), ..a }
            &&& s.action == Action::Continue
            &&& s.effects.len() == 0
        }),
{
}

/// Esc closes the help, the file tree, the buffer list, the project switcher
/// and the quit prompt, with nothing else done.
pub proof fn lemma_escape_closes_overlay(a: AppView, mods: u8)
    requires
        a.overlay is Some,
    ensures
        ({
            let s = key_step(a, KeyEvent { code: KeyCode::Esc, modifiers: mods }, None);
            &&& s.app == AppView { overlay: None, ..a }
            &&& s.action == Action::Continue
            &&& s.effects.len() == 0
        }),
{
}

/// Whether every write among the requests goes to an editor pane.
pub open spec fn writes_only_to_editors(kinds: Seq<PaneKind>, effects: Seq<EffectView>) -> bool {
    forall|i: int|
        0 <= i < effects.len() ==> (#[trigger] effects[i] matches EffectView::Write { pane, .. } ==> pane
            < kinds.len() && kinds[pane as int] == PaneKind::Editor)
}

proof fn lemma_write_all_editors(kinds: Seq<PaneKind>, bytes: Seq<u8>, n: int)
    requires
        n <= kinds.len() <= usize::MAX,
    ensures
        writes_only_to_editors(kinds, write_all(kinds, PaneKind::Editor, bytes, n)),
    decreases n,
{
    if n > 0 {
        lemma_write_all_editors(kinds, bytes, n - 1);
        let prev = write_all(kinds, PaneKind::Editor, bytes, n - 1);
        if kinds[n - 1] == PaneKind::Editor {
            let now = prev.push(EffectView::Write { pane: (n - 1) as usize, bytes });
            assert forall|i: int| 0 <= i < now.len() implies (#[trigger] now[i] matches EffectView::Write {
                pane,
                ..
            } ==> pane < kinds.len() && kinds[pane as int] == PaneKind::Editor) by {
                if i < prev.len() {
                    assert(now[i] == prev[i]);
                }
            }
        }
    }
}

proof fn lemma_write_first_editor(kinds: Seq<PaneKind>, bytes: Seq<u8>)
    requires
        kinds.len() <= usize::MAX,
    ensures
        writes_only_to_editors(kinds, write_first(kinds, PaneKind::Editor, bytes)),
{
    lemma_first_of_kind_valid(kinds, PaneKind::Editor);
}

/// In navigation mode and while an overlay is open, keys are commands of
/// the workspace and are not typed into the focused pane: the only bytes
/// written go to editor panes (to list or switch buffers, open a file, or
/// save before quitting).
pub proof fn lemma_commands_are_not_typed(a: AppView, k: KeyEvent, explain: Option<Seq<char>>)
    requires
        a.overlay is Some || a.mode == InputMode::Navigation,
        a.pane_kinds.len() <= usize::MAX,
    ensures
        writes_only_to_editors(a.pane_kinds, key_step(a, k, explain).effects),
{
    reveal(crate::event::nav_focus);
    reveal(crate::event::nav_layout);
    reveal(crate::event::nav_command);
    lemma_write_all_editors(a.pane_kinds, crate::event::list_buffers_bytes(), a.pane_kinds.len() as int);
    lemma_write_all_editors(
        a.pane_kinds,
        crate::event::buffer_switch_bytes(a.buffer_input),
        a.pane_kinds.len() as int,
    );
    lemma_write_first_editor(a.pane_kinds, save_all_bytes(editor_is_nano(a.config)));
    if a.filetree_selection < a.filetree_entries.len() {
        lemma_write_first_editor(
            a.pane_kinds,
            open_file_bytes(editor_is_nano(a.config), a.filetree_entries[a.filetree_selection as int].0),
        );
    }
}

/// While the file tree is open, its selection stays on an entry, whatever
/// key comes.
pub proof fn lemma_filetree_selection_in_range(a: AppView, k: KeyEvent, explain: Option<Seq<char>>)
    requires
        a.overlay == Some(Overlay::FileTree),
        a.filetree_selection < a.filetree_entries.len(),
    ensures
        key_step(a, k, explain).app.filetree_selection < key_step(a, k, explain).app.filetree_entries.len(),
{
}

/// While the project switcher is open, its selection stays on a project,
/// whatever key comes.
pub proof fn lemma_switcher_selection_in_range(a: AppView, k: KeyEvent, explain: Option<Seq<char>>)
    requires
        a.overlay == Some(Overlay::ProjectSwitcher),
        a.project_switcher_selection < a.recent_projects.len(),
    ensures
        key_step(a, k, explain).app.project_switcher_selection < key_step(a, k, explain).app.recent_projects.len(),
{
}

/// `m` twice in a row (entering navigation mode before each) gives back the
/// maximize state, on any pane but the transcript, from a full or restored layout.
pub proof fn lemma_full_toggle_twice(a: AppView)
    requires
        !crate::event::transcript_focused(a),
        a.maximized == MaximizedState::Full || a.maximized == MaximizedState::Restored,
    ensures
        toggle_full(toggle_full(a)).maximized == a.maximized,
{
}

// ---------------------------------------------------------------------
// Layout
// ---------------------------------------------------------------------

/// The slot that shows the focused pane is never hidden, whatever is maximized.
pub proof fn lemma_focused_slot_shown(m: MaximizedState, f: int)
    requires
        0 <= f < 4,
    ensures
        slot_regions(m, f)[f] != Region::Hidden,
{
}

/// With nothing maximized every slot is shown, each in its own quarter.
pub proof fn lemma_restored_shows_all(f: int)
    ensures
        forall|p: int| 0 <= p < 4 ==> slot_regions(MaximizedState::Restored, f)[p] != Region::Hidden,
        forall|p: int, q: int|
            0 <= p < q < 4 ==> slot_regions(MaximizedState::Restored, f)[p] != slot_regions(
                MaximizedState::Restored,
                f,
            )[q],
{
}

/// Fully maximized, only the focused slot is shown, over the whole area.
pub proof fn lemma_full_shows_one(f: int)
    requires
        0 <= f < 4,
    ensures
        slot_regions(MaximizedState::Full, f)[f] == Region::Whole,
        forall|p: int| 0 <= p < 4 && p != f ==> slot_regions(MaximizedState::Full, f)[p] == Region::Hidden,
{
}

// ---------------------------------------------------------------------
// Variables pane
// ---------------------------------------------------------------------

/// The selected variable is always inside the rows shown.
pub proof fn lemma_selection_visible(len: int, scroll: int, selected: int, rows: int)
    requires
        len > 0,
        rows > 1,
        0 <= scroll,
        0 <= selected,
    ensures
        ({
            let w = window(len, scroll, selected, rows);
            w.2 <= w.0 < w.3 && w.3 <= len && 0 <= w.2
        }),
{
}

/// `j` then `k` in the variables pane gives back the selection.
pub proof fn lemma_vars_down_up(sel: int, len: int)
    requires
        0 <= sel < len,
    ensures
        ({
            let down = (sel + 1) % len;
            (if down == 0 { len - 1 } else { down - 1 }) == sel
        }),
{
    if sel + 1 < len {
        assert((sel + 1) % len == sel + 1) by (nonlinear_arith)
            requires 0 <= sel + 1 < len;
    } else {
        assert((sel + 1) % len == 0) by (nonlinear_arith)
            requires sel + 1 == len, len > 0;
    }
}

// ---------------------------------------------------------------------
// Tabs
// ---------------------------------------------------------------------

/// Switching to the next tab and then to the previous one gives back the active tab.
pub proof fn lemma_tab_forward_back(active: int, len: int)
    requires
        0 <= active < len,
    ensures
        ((((active + 1) % len) + len - 1) % len) == active,
{
    if active + 1 < len {
        assert((active + 1) % len == active + 1) by (nonlinear_arith)
            requires 0 <= active + 1 < len;
        assert((active + len) % len == active) by (nonlinear_arith)
            requires 0 <= active < len;
    } else {
        assert((active + 1) % len == 0) by (nonlinear_arith)
            requires active + 1 == len, len > 0;
        assert((len - 1) % len == len - 1) by (nonlinear_arith)
            requires len > 0;
    }
}

// ---------------------------------------------------------------------
// Assistant
// ---------------------------------------------------------------------

/// Once the assistant runs with some context, the same context does not restart it.
pub proof fn lemma_same_context_no_restart(hash: u64)
    ensures
        !wants_context(LlmState::Running { last_context_hash: hash }, hash),
{
}

/// Fresh context always restarts an assistant that is not running or that
/// runs with other context.
pub proof fn lemma_new_context_restarts(s: LlmState, hash: u64)
    requires
        !(s matches LlmState::Running { last_context_hash } && last_context_hash == hash),
    ensures
        wants_context(s, hash),
{
}

// ---------------------------------------------------------------------
// Diagram
// ---------------------------------------------------------------------

/// A change of the file during a render is not lost: once the render ends
/// (done or failed), the file counts as unseen, so the next look at it
/// finds it changed and renders again.
pub proof fn lemma_change_during_render_rerenders(d: DiagramView, msg: RenderMsg)
    requires
        d.awaiting,
        d.pending_render,
        msg is Done || msg is Failed,
    ensures
        receive_step(d, msg).last_modified is None,
        !receive_step(d, msg).render_in_progress,
        !receive_step(d, msg).pending_render,
{
}

/// One render at a time: a look at the file reports a change only 300 ms
/// or more after the last look and for a new stamp; taking the changed
/// source starts a render only when none runs, and a change seen while one
/// runs is queued.
pub proof fn lemma_one_render_at_a_time(d: DiagramView, now: u64, probe: FileProbe, source: Seq<char>)
    ensures
        ({
            let (d1, found) = check_step(d, now, probe);
            let (d2, started) = source_step(d1, source);
            &&& found == FileCheck::Changed ==> now >= d.last_check_time + 300 && (probe matches FileProbe::Stamped(
                t,
            ) && d.last_modified != Some(t))
            &&& d1.render_in_progress == d.render_in_progress
            &&& started ==> !d.render_in_progress && d2.render_in_progress
            &&& d.render_in_progress ==> !started && d2.pending_render && d2.render_in_progress
        }),
{
}

// ---------------------------------------------------------------------
// Variables file fields
// ---------------------------------------------------------------------

/// The field text of `s` as a CSV writer quotes it: every `"` doubled.
pub open spec fn double_quotes(s: Seq<char>) -> Seq<char>
    decreases s.len(),
{
    if s.len() == 0 {
        s
    } else if s[0] == '"' {
        seq!['"', '"'] + double_quotes(s.drop_first())
    } else {
        seq![s[0]] + double_quotes(s.drop_first())
    }
}

/// Collapsing doubled quotes undoes doubling them.
pub proof fn lemma_collapse_undoes_doubling(s: Seq<char>)
    ensures
        collapse_quotes(double_quotes(s)) == s,
    decreases s.len(),
{
    if s.len() > 0 {
        lemma_collapse_undoes_doubling(s.drop_first());
        let d = double_quotes(s);
        if s[0] == '"' {
            assert(d.skip(2) =~= double_quotes(s.drop_first()));
        } else {
            assert(d.skip(1) =~= double_quotes(s.drop_first()));
            if d.len() >= 2 {
                assert(d[0] == s[0]);
            }
        }
        assert(seq![s[0]] + s.drop_first() =~= s);
    }
}

/// A field quoted the CSV way (in quotes, inner quotes doubled) reads back
/// as the text it quotes.
pub proof fn lemma_quoted_field_round_trip(s: Seq<char>)
    ensures
        unescaped_field(seq!['"'] + double_quotes(s) + seq!['"']) == s,
{
    let q = seq!['"'] + double_quotes(s) + seq!['"'];
    assert(q.len() >= 2 && q.last() == '"' && !is_ws(q.last()));
    assert(trim_end(q) == q);
    assert(q[0] == '"' && !is_ws(q[0]));
    assert(trim_start(q) == q);
    assert(trim(q) == q);
    assert(q.subrange(1, q.len() - 1) =~= double_quotes(s));
    lemma_collapse_undoes_doubling(s);
}

// ---------------------------------------------------------------------
// Transcript
// ---------------------------------------------------------------------

/// After an entry is added to the transcript, the selected entry is the
/// text that was just sent.
pub proof fn lemma_transcript_push_selects(entries: Seq<(Seq<char>, Seq<char>)>, sent: Seq<char>, response: Seq<char>)
    ensures
        ({
            let after = entries.push((sent, response));
            let offset = entries.len() as int;
            0 <= offset < after.len() && after[offset].0 == sent
        }),
{
}

// ---------------------------------------------------------------------
// Plot viewer
// ---------------------------------------------------------------------

/// Moving to the next plot and then to the previous one (both wrapping
/// around) gives back the plot that was selected.
pub proof fn lemma_plot_next_prev(sel: usize, len: nat)
    requires
        sel < len <= usize::MAX,
    ensures
        prev_index(next_index(sel, len), len) == sel,
{
}


// ---------------------------------------------------------------------
// What single operations give, over all inputs
// ---------------------------------------------------------------------

/// The REPL history block of the context snapshot lists the last ten lines
/// (or all, when fewer), newest first: its line `k` is `h[n - 1 - k]`.
pub proof fn lemma_history_newest_first(h: Seq<Seq<char>>)
    requires
        h.len() > 0,
    ensures
        ({
            let n = h.len() as int;
            let m = if n < 10 { n } else { 10 };
            md_history(h) == "## Recent REPL History\n```\n"@ + md_lines(
                Seq::new(m as nat, |k: int| h[n - 1 - k]),
            ) + "```\n"@
        }),
{
    let n = h.len() as int;
    let m = if n < 10 { n } else { 10 };
    assert(recent_lines(h) =~= Seq::new(m as nat, |k: int| h[n - 1 - k]));
}

/// The region each slot gets when slot `f` is maximized vertically: `f`
/// takes its whole column, the other slot of that column (`f + 2` mod 4) is
/// hidden, and the two slots of the other column keep their quarters.
pub proof fn lemma_vertical_maximize(f: int)
    requires
        0 <= f < 4,
    ensures
        slot_regions(MaximizedState::Vertical, f)[f] == (if f % 2 == 0 { Region::LeftHalf } else { Region::RightHalf }),
        slot_regions(MaximizedState::Vertical, f)[(f + 2) % 4] == Region::Hidden,
        forall|p: int| 0 <= p < 4 && p % 2 != f % 2 ==> slot_regions(MaximizedState::Vertical, f)[p] == quarter(p),
        slot_regions(MaximizedState::Vertical, f).len() == 4,
{
}

/// The region each slot gets when slot `f` is maximized horizontally: `f`
/// takes its whole row, the other slot of that row is hidden, and the two
/// slots of the other row keep their quarters.
pub proof fn lemma_horizontal_maximize(f: int)
    requires
        0 <= f < 4,
    ensures
        slot_regions(MaximizedState::Horizontal, f)[f] == (if f < 2 { Region::TopHalf } else { Region::BottomHalf }),
        slot_regions(MaximizedState::Horizontal, f)[if f % 2 == 0 { f + 1 } else { f - 1 }] == Region::Hidden,
        forall|p: int| 0 <= p < 4 && (p < 2) != (f < 2) ==> slot_regions(MaximizedState::Horizontal, f)[p] == quarter(p),
        slot_regions(MaximizedState::Horizontal, f).len() == 4,
{
}

/// The quarter of the screen slot `p` has in the two by two grid: slots
/// 0 and 1 on top, 0 and 2 on the left.
pub open spec fn quarter(p: int) -> Region {
    if p == 0 {
        Region::TopLeft
    } else if p == 1 {
        Region::TopRight
    } else if p == 2 {
        Region::BottomLeft
    } else {
        Region::BottomRight
    }
}

proof fn lemma_last_index_after(a: Seq<char>, c: char, b: Seq<char>)
    requires
        !b.contains(c),
    ensures
        last_index_of(a + seq![c] + b, c) == Some(a.len() as int),
    decreases b.len(),
{
    let s = a + seq![c] + b;
    if b.len() == 0 {
        assert(s.last() == c);
    } else {
        assert(b[b.len() - 1] == b.last());
        assert(b.last() != c);
        assert(s.drop_last() =~= a + seq![c] + b.drop_last());
        assert forall|x: char| b.drop_last().contains(x) implies b.contains(x) by {
            let i = choose|i: int| 0 <= i < b.drop_last().len() && b.drop_last()[i] == x;
            assert(b[i] == x);
        }
        lemma_last_index_after(a, c, b.drop_last());
    }
}

/// A file named `<stem>.<ext>` in any directory, with a non-empty stem, is
/// an image exactly when `ext` is png, jpg, jpeg, gif, bmp or webp.
pub proof fn lemma_image_extensions(dir: Seq<char>, stem: Seq<char>, ext: Seq<char>)
    requires
        stem.len() > 0,
        !stem.contains('/'),
        !ext.contains('/'),
        !ext.contains('.'),
    ensures
        is_image(dir + seq!['/'] + stem + seq!['.'] + ext) <==> (ext == "png"@ || ext == "jpg"@ || ext == "jpeg"@
            || ext == "gif"@ || ext == "bmp"@ || ext == "webp"@),
{
    let name = stem + seq!['.'] + ext;
    assert(!name.contains('/')) by {
        assert forall|i: int| 0 <= i < name.len() implies name[i] != '/' by {
            if i < stem.len() {
                assert(stem[i] == name[i]);
                assert(stem.contains(stem[i]));
            } else if i > stem.len() {
                assert(ext[i - stem.len() - 1] == name[i]);
                assert(ext.contains(ext[i - stem.len() - 1]));
            }
        }
    }
    let p = dir + seq!['/'] + stem + seq!['.'] + ext;
    assert(p =~= dir + seq!['/'] + name);
    lemma_last_index_after(dir, '/', name);
    assert(p.skip(dir.len() + 1int) =~= name);
    assert(file_name(p) == name);
    lemma_last_index_after(stem, '.', ext);
    assert(name.skip(stem.len() + 1int) =~= ext);
    assert(extension(name) == Some(ext));
}

/// `c` in navigation mode shows the plot viewer of the bottom-left slot:
/// the focus goes to the pane the settings place in slot 3 (index 2), of
/// the kind they name there, fully maximized, and that pane is asked to
/// show its plot tab.
pub proof fn lemma_c_focuses_the_plot_slot(a: AppView, mods: u8, i: int)
    requires
        a.pane_kinds.len() <= usize::MAX,
        a.overlay is None,
        a.mode == InputMode::Navigation,
        mods != ALT,
        pane_at_position(a, 2) == Some(i),
    ensures
        ({
            let s = key_step(a, KeyEvent { code: KeyCode::Char('c'), modifiers: mods }, None);
            &&& s.app.focus == i
            &&& 0 <= i < a.pane_kinds.len()
            &&& Some(a.pane_kinds[i]) == crate::app::kind_from_position_name(a.config.layout.positions@[2]@)
            &&& s.app.maximized == MaximizedState::Full
            &&& s.app.mode == InputMode::Normal
            &&& s.effects == seq![EffectView::SwitchToTab { pane: i as usize, kind: PaneKind::Plot }]
        }),
{
    reveal(crate::event::nav_focus);
    lemma_pane_at_position_valid(a, 2);
    let k = crate::app::kind_from_position_name(a.config.layout.positions@[2]@);
    if let Some(kk) = k {
        lemma_first_of_kind_valid(a.pane_kinds, kk);
    }
}

/// At the first-launch prompt each numbered or named answer gives its
/// editor, whatever the default: 1 or nvim, 2 or vim, 4 or vi start with the
/// intro screen skipped; 3 or nano starts with no arguments.
pub proof fn lemma_editor_answers(input: Seq<char>, default_choice: Seq<char>)
    ensures
        (trim(input) == "1"@ || trim(input) == "nvim"@) ==> chosen_editor(input, default_choice) == (
            "nvim"@,
            seq!["--cmd"@, "set shortmess+=I"@],
        ),
        (trim(input) == "2"@ || trim(input) == "vim"@) ==> chosen_editor(input, default_choice) == (
            "vim"@,
            seq!["--cmd"@, "set shortmess+=I"@],
        ),
        (trim(input) == "3"@ || trim(input) == "nano"@) ==> chosen_editor(input, default_choice) == (
            "nano"@,
            Seq::<Seq<char>>::empty(),
        ),
        (trim(input) == "4"@ || trim(input) == "vi"@) ==> chosen_editor(input, default_choice) == (
            "vi"@,
            seq!["--cmd"@, "set shortmess+=I"@],
        ),
{
    reveal_strlit("1");
    reveal_strlit("2");
    reveal_strlit("3");
    reveal_strlit("4");
    reveal_strlit("nvim");
    reveal_strlit("vim");
    reveal_strlit("nano");
    reveal_strlit("vi");
    let t = trim(input);
    assert(crate::launch::vim_args() =~= seq!["--cmd"@, "set shortmess+=I"@]);
    if t == "2"@ || t == "vim"@ {
        assert(t.len() > 0);
        assert(t != "1"@ && t != "nvim"@) by {
            if t == "2"@ {
                assert(t[0] != "1"@[0]);
                assert(t.len() != "nvim"@.len());
            } else {
                assert(t.len() != "1"@.len());
                assert(t.len() != "nvim"@.len());
            }
        }
    }
    if t == "3"@ || t == "nano"@ {
        assert(t.len() > 0);
        assert(t != "1"@ && t != "nvim"@ && t != "2"@ && t != "vim"@) by {
            if t == "3"@ {
                assert(t[0] != "1"@[0] && t[0] != "2"@[0]);
                assert(t.len() != "nvim"@.len() && t.len() != "vim"@.len());
            } else {
                assert(t.len() != "1"@.len() && t.len() != "2"@.len() && t.len() != "vim"@.len());
                assert(t[1] != "nvim"@[1]);
            }
        }
    }
    if t == "4"@ || t == "vi"@ {
        assert(t.len() > 0);
        assert(t != "1"@ && t != "nvim"@ && t != "2"@ && t != "vim"@ && t != "3"@ && t != "nano"@) by {
            if t == "4"@ {
                assert(t[0] != "1"@[0] && t[0] != "2"@[0] && t[0] != "3"@[0]);
                assert(t.len() != "nvim"@.len() && t.len() != "vim"@.len() && t.len() != "nano"@.len());
            } else {
                assert(t.len() != "1"@.len() && t.len() != "2"@.len() && t.len() != "3"@.len());
                assert(t.len() != "nvim"@.len() && t.len() != "vim"@.len() && t.len() != "nano"@.len());
            }
        }
    }
}

} // verus!
