use atelier::app::{Action, App, Effect, InputMode, MaximizedState, Overlay};
use atelier::config::Config;
use atelier::event::handle_key;
use atelier::keys::{KeyCode, KeyEvent, ALT, CONTROL, CONTROL_SHIFT};
use atelier::pane::PaneKind;

fn app() -> App {
    let mut a = App::new(Config::default(), Some("/proj".to_string()), 0);
    a.pane_kinds = vec![
        PaneKind::Editor,
        PaneKind::Repl,
        PaneKind::Variables,
        PaneKind::Terminal,
        PaneKind::Transcript,
    ];
    a
}

fn k(code: KeyCode) -> KeyEvent {
    KeyEvent { code, modifiers: 0 }
}

fn c(ch: char) -> KeyEvent {
    k(KeyCode::Char(ch))
}

fn leader() -> KeyEvent {
    KeyEvent { code: KeyCode::Char(' '), modifiers: ALT }
}

fn nav(a: &mut App, key: KeyEvent) -> Vec<Effect> {
    let out = handle_key(a, leader(), None);
    assert!(out.effects.is_empty());
    assert_eq!(a.mode, InputMode::Navigation);
    let out = handle_key(a, key, None);
    assert_eq!(out.action, Action::Continue);
    out.effects
}

fn write_of(e: &Effect) -> (usize, Vec<u8>) {
    match e {
        Effect::Write { pane, bytes } => (*pane, bytes.clone()),
        other => panic!("not a write: {other:?}"),
    }
}

#[test]
fn leader_enters_navigation() {
    let mut a = app();
    let out = handle_key(&mut a, leader(), None);
    assert_eq!(out.action, Action::Continue);
    assert!(out.effects.is_empty());
    assert_eq!(a.mode, InputMode::Navigation);
}

#[test]
fn normal_keys_go_to_the_focused_pane() {
    let mut a = app();
    a.focus = 2;
    let out = handle_key(&mut a, c('x'), None);
    assert_eq!(write_of(&out.effects[0]), (2, vec![b'x']));
    assert_eq!(a.mode, InputMode::Normal);
}

#[test]
fn control_c_sends_an_interrupt() {
    let mut a = app();
    let out = handle_key(&mut a, KeyEvent { code: KeyCode::Char('c'), modifiers: CONTROL }, None);
    assert_eq!(write_of(&out.effects[0]), (0, vec![3u8]));
}

#[test]
fn control_d_asks_then_saves_and_quits() {
    let mut a = app();
    let out = handle_key(&mut a, KeyEvent { code: KeyCode::Char('d'), modifiers: CONTROL }, None);
    assert_eq!(out.action, Action::Continue);
    assert!(out.effects.is_empty());
    assert_eq!(a.overlay, Some(Overlay::QuitConfirm));
    assert!(!a.should_quit);
    let out = handle_key(&mut a, c('y'), None);
    assert_eq!(out.action, Action::Quit);
    assert!(a.should_quit);
    assert_eq!(write_of(&out.effects[0]), (0, b"\x1b\x1b:wa\r".to_vec()));
}

#[test]
fn control_tab_switches_tabs() {
    let mut a = app();
    a.focus = 3;
    let out = handle_key(&mut a, KeyEvent { code: KeyCode::Tab, modifiers: CONTROL }, None);
    assert!(matches!(out.effects[0], Effect::SwitchTab { pane: 3, delta: 1 }));
    let out = handle_key(&mut a, KeyEvent { code: KeyCode::Tab, modifiers: CONTROL_SHIFT }, None);
    assert!(matches!(out.effects[0], Effect::SwitchTab { pane: 3, delta: -1 }));
}

#[test]
fn alt_arrows_scroll() {
    let mut a = app();
    let out = handle_key(&mut a, KeyEvent { code: KeyCode::Up, modifiers: ALT }, None);
    assert!(matches!(out.effects[0], Effect::Scroll { pane: 0, rows: 3 }));
    let out = handle_key(&mut a, KeyEvent { code: KeyCode::Down, modifiers: ALT }, None);
    assert!(matches!(out.effects[0], Effect::Scroll { pane: 0, rows: -3 }));
}

#[test]
fn enter_on_a_variable_asks_the_repl_to_explain_it() {
    let mut a = app();
    a.focus = 2;
    let out = handle_key(&mut a, k(KeyCode::Enter), Some("df"));
    assert_eq!(out.effects.len(), 1);
    assert_eq!(write_of(&out.effects[0]), (1, b"explain(df)\r".to_vec()));
}

#[test]
fn digits_focus_slots_and_return_to_normal() {
    let mut a = app();
    assert!(nav(&mut a, c('2')).is_empty());
    assert_eq!(a.focus, 1);
    assert_eq!(a.mode, InputMode::Normal);
    nav(&mut a, c('4'));
    assert_eq!(a.focus, 3);
}

#[test]
fn jumping_elsewhere_restores_the_layout() {
    let mut a = app();
    a.maximized = MaximizedState::Full;
    nav(&mut a, c('1'));
    assert_eq!(a.maximized, MaximizedState::Full);
    nav(&mut a, c('2'));
    assert_eq!(a.maximized, MaximizedState::Restored);
}

#[test]
fn escape_leaves_navigation_without_effects() {
    let mut a = app();
    assert!(nav(&mut a, k(KeyCode::Esc)).is_empty());
    assert_eq!(a.mode, InputMode::Normal);
}

#[test]
fn m_toggles_full_maximize_twice_back() {
    let mut a = app();
    nav(&mut a, c('m'));
    assert_eq!(a.maximized, MaximizedState::Full);
    nav(&mut a, c('m'));
    assert_eq!(a.maximized, MaximizedState::Restored);
}

#[test]
fn v_h_and_equals_change_the_layout() {
    let mut a = app();
    nav(&mut a, c('v'));
    assert_eq!(a.maximized, MaximizedState::Vertical);
    nav(&mut a, c('h'));
    assert_eq!(a.maximized, MaximizedState::Horizontal);
    nav(&mut a, c('='));
    assert_eq!(a.maximized, MaximizedState::Restored);
}

#[test]
fn transcript_is_focused_maximized() {
    let mut a = app();
    nav(&mut a, c('t'));
    assert_eq!(a.focus, 4);
    assert_eq!(a.maximized, MaximizedState::Full);
    // `m` from the maximized transcript goes back to slot 0.
    nav(&mut a, c('m'));
    assert_eq!(a.focus, 0);
    assert_eq!(a.maximized, MaximizedState::Restored);
}

#[test]
fn a_focuses_the_assistant_slot_and_refreshes_context() {
    let mut a = app();
    let effects = nav(&mut a, c('a'));
    assert_eq!(a.focus, 3);
    assert_eq!(effects.len(), 1);
    assert!(matches!(effects[0], Effect::RefreshLlmContext));
}

#[test]
fn l_pushes_context_and_focuses_the_assistant() {
    let mut a = app();
    let effects = nav(&mut a, c('l'));
    assert_eq!(a.focus, 3);
    assert_eq!(a.mode, InputMode::Normal);
    assert_eq!(effects.len(), 2);
    assert!(matches!(effects[0], Effect::SwitchToTab { pane: 3, kind: PaneKind::Llm }));
    assert!(matches!(effects[1], Effect::RefreshLlmContext));
}

#[test]
fn e_sends_the_clipboard_to_the_repl() {
    let mut a = app();
    let effects = nav(&mut a, c('e'));
    assert_eq!(effects.len(), 1);
    assert!(matches!(effects[0], Effect::SendClipboardToRepl));
    assert_eq!(a.mode, InputMode::Normal);
}

#[test]
fn j_k_and_arrows_scroll_the_transcript() {
    let mut a = app();
    handle_key(&mut a, leader(), None);
    let out = handle_key(&mut a, c('j'), None);
    assert!(matches!(out.effects[0], Effect::Scroll { pane: 4, rows: -1 }));
    assert_eq!(a.mode, InputMode::Navigation);
    let out = handle_key(&mut a, k(KeyCode::Down), None);
    assert!(matches!(out.effects[0], Effect::Scroll { pane: 4, rows: -1 }));
    let out = handle_key(&mut a, c('k'), None);
    assert!(matches!(out.effects[0], Effect::Scroll { pane: 4, rows: 1 }));
    let out = handle_key(&mut a, k(KeyCode::Up), None);
    assert!(matches!(out.effects[0], Effect::Scroll { pane: 4, rows: 1 }));
    assert_eq!(a.mode, InputMode::Navigation);
}

#[test]
fn scrolling_without_a_transcript_leaves_navigation() {
    let mut a = app();
    a.pane_kinds.pop();
    handle_key(&mut a, leader(), None);
    let out = handle_key(&mut a, c('j'), None);
    assert!(out.effects.is_empty());
    assert_eq!(a.mode, InputMode::Normal);
}

#[test]
fn tab_in_navigation_keeps_navigation() {
    let mut a = app();
    handle_key(&mut a, leader(), None);
    let out = handle_key(&mut a, k(KeyCode::Tab), None);
    assert!(matches!(out.effects[0], Effect::SwitchTab { pane: 0, delta: 1 }));
    assert_eq!(a.mode, InputMode::Navigation);
}

#[test]
fn quit_asks_first() {
    let mut a = app();
    nav(&mut a, c('q'));
    assert_eq!(a.overlay, Some(Overlay::QuitConfirm));
    let out = handle_key(&mut a, c('n'), None);
    assert_eq!(out.action, Action::Continue);
    assert!(a.overlay.is_none());
    nav(&mut a, c('q'));
    let out = handle_key(&mut a, c('y'), None);
    assert_eq!(out.action, Action::Quit);
    assert!(a.should_quit);
}

#[test]
fn help_opens_and_closes() {
    let mut a = app();
    nav(&mut a, c('?'));
    assert_eq!(a.overlay, Some(Overlay::Help));
    handle_key(&mut a, c('x'), None);
    assert_eq!(a.overlay, Some(Overlay::Help));
    handle_key(&mut a, k(KeyCode::Esc), None);
    assert!(a.overlay.is_none());
}

#[test]
fn file_tree_navigation() {
    let mut a = app();
    let effects = nav(&mut a, c('f'));
    assert_eq!(a.overlay, Some(Overlay::FileTree));
    assert_eq!(a.filetree_current, "/proj");
    assert!(matches!(effects[0], Effect::RefreshFiletree));
    a.filetree_entries = vec![
        ("..".to_string(), true),
        ("/proj/src".to_string(), true),
        ("/proj/a.t".to_string(), false),
    ];
    handle_key(&mut a, k(KeyCode::Down), None);
    assert_eq!(a.filetree_selection, 1);
    let out = handle_key(&mut a, k(KeyCode::Enter), None);
    assert!(matches!(out.effects[0], Effect::RefreshFiletree));
    assert_eq!(a.filetree_current, "/proj/src");
    handle_key(&mut a, c('j'), None);
    handle_key(&mut a, c('j'), None);
    assert_eq!(a.filetree_selection, 2);
    let out = handle_key(&mut a, k(KeyCode::Enter), None);
    assert!(a.overlay.is_none());
    assert_eq!(write_of(&out.effects[0]), (0, b"\x1b\x1b:e /proj/a.t\r".to_vec()));
}

#[test]
fn file_tree_parent_entry() {
    let mut a = app();
    nav(&mut a, c('f'));
    a.filetree_entries = vec![("..".to_string(), true)];
    handle_key(&mut a, k(KeyCode::Up), None);
    assert_eq!(a.filetree_selection, 0);
    let out = handle_key(&mut a, k(KeyCode::Enter), None);
    assert!(matches!(out.effects[0], Effect::EnterParentDir));
    handle_key(&mut a, c('q'), None);
    assert!(a.overlay.is_none());
}

#[test]
fn buffer_list_switches_buffers() {
    let mut a = app();
    let effects = nav(&mut a, c('b'));
    assert_eq!(a.overlay, Some(Overlay::BufferList));
    assert_eq!(
        write_of(&effects[0]),
        (0, b"\x1b\x1b:redir! > /tmp/atelier-buffers.txt | silent ls | redir END\r".to_vec())
    );
    handle_key(&mut a, c('1'), None);
    handle_key(&mut a, c('2'), None);
    handle_key(&mut a, c('x'), None);
    assert_eq!(a.buffer_input, "12");
    handle_key(&mut a, k(KeyCode::Backspace), None);
    assert_eq!(a.buffer_input, "1");
    let out = handle_key(&mut a, k(KeyCode::Enter), None);
    assert!(a.overlay.is_none());
    assert_eq!(write_of(&out.effects[0]), (0, b"\x1b\x1b:b 1\r".to_vec()));
}

#[test]
fn project_switcher_relaunches() {
    let mut a = app();
    let effects = nav(&mut a, c('p'));
    assert_eq!(a.overlay, Some(Overlay::ProjectSwitcher));
    assert!(matches!(effects[0], Effect::LoadRecentProjects));
    a.recent_projects = vec!["/a".to_string(), "/b".to_string()];
    handle_key(&mut a, k(KeyCode::Down), None);
    handle_key(&mut a, k(KeyCode::Down), None);
    assert_eq!(a.project_switcher_selection, 1);
    handle_key(&mut a, k(KeyCode::Enter), None);
    assert_eq!(a.should_relaunch, Some("/b".to_string()));
    assert!(a.overlay.is_none());
}

#[test]
fn keys_never_move_focus_out_of_range_here() {
    let mut a = app();
    for ch in ['1', '2', '3', '4', '5', 't', 'c', 'd', 'a', 'm', 'v', 'h', '='] {
        nav(&mut a, c(ch));
        assert!(a.focus < a.pane_kinds.len());
    }
}

#[test]
fn navigation_keys_are_not_typed_into_panes() {
    for ch in ['x', 'b', 'f', 'q', 'l', '2', 'm', 'z', '?'] {
        let mut a = app();
        a.focus = 1;
        let effects = nav(&mut a, c(ch));
        for e in &effects {
            if let Effect::Write { pane, .. } = e {
                assert_eq!(a.pane_kinds[*pane], PaneKind::Editor);
            }
        }
    }
}

#[test]
fn overlay_selections_stay_in_range() {
    let mut a = app();
    nav(&mut a, c('f'));
    a.filetree_entries = vec![("/proj/a".to_string(), false), ("/proj/b".to_string(), false)];
    for _ in 0..5 {
        handle_key(&mut a, k(KeyCode::Down), None);
    }
    assert_eq!(a.filetree_selection, 1);
    handle_key(&mut a, k(KeyCode::Esc), None);
    nav(&mut a, c('p'));
    a.recent_projects = vec!["/x".to_string()];
    handle_key(&mut a, c('j'), None);
    handle_key(&mut a, c('k'), None);
    handle_key(&mut a, c('k'), None);
    assert_eq!(a.project_switcher_selection, 0);
}

#[test]
fn r_sends_the_region_to_the_repl() {
    let mut a = app();
    assert!(matches!(nav(&mut a, c('r'))[0], Effect::SendToRepl { region: true }));
}

#[test]
fn enter_on_the_transcript_sends_its_selection() {
    let mut a = app();
    a.focus = 4;
    handle_key(&mut a, leader(), None);
    let out = handle_key(&mut a, k(KeyCode::Enter), None);
    assert!(matches!(out.effects[0], Effect::SendToRepl { region: false }));
    let out = handle_key(&mut a, c('o'), None);
    assert!(matches!(out.effects[0], Effect::SendToEditor));
}
