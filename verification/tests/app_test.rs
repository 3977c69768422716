use atelier::app::{open_file_message, parse_maximized, parse_position_name, App, Effect, MaximizedState, TextSource};
use atelier::config::Config;
use atelier::pane::PaneKind;

fn four_pane_app() -> App {
    let mut app = App::new(Config::default(), None, 0);
    app.pane_kinds = vec![PaneKind::Editor, PaneKind::Repl, PaneKind::Variables, PaneKind::Terminal];
    app
}

fn nano_app() -> App {
    let mut c = Config::default();
    c.editor.command = "nano".to_string();
    c.editor.args = vec![];
    let mut app = App::new(c, None, 0);
    app.pane_kinds = vec![PaneKind::Editor, PaneKind::Repl];
    app
}

fn write_of(e: &Effect) -> (usize, Vec<u8>) {
    match e {
        Effect::Write { pane, bytes } => (*pane, bytes.clone()),
        other => panic!("not a write: {other:?}"),
    }
}

#[test]
fn new_state_starts_in_normal_mode_at_the_project() {
    let app = App::new(Config::default(), Some("/proj".to_string()), 42);
    assert_eq!(app.filetree_base, "/proj");
    assert_eq!(app.filetree_current, "/proj");
    assert_eq!(app.focus, 0);
    assert!(app.overlay.is_none());
    assert!(!app.should_quit);
    assert_eq!(app.maximized, MaximizedState::Restored);
    assert_eq!(app.last_llm_context_refresh, 42);
    let plain = App::new(Config::default(), None, 0);
    assert_eq!(plain.filetree_base, ".");
}

#[test]
fn initial_maximize_comes_from_the_settings() {
    let mut c = Config::default();
    c.layout.initial_maximized = "full".to_string();
    assert_eq!(App::new(c, None, 0).maximized, MaximizedState::Full);
}

#[test]
fn maximize_names_parse() {
    assert_eq!(parse_maximized("full"), MaximizedState::Full);
    assert_eq!(parse_maximized("vertical"), MaximizedState::Vertical);
    assert_eq!(parse_maximized("horizontal"), MaximizedState::Horizontal);
    assert_eq!(parse_maximized("none"), MaximizedState::Restored);
    assert_eq!(parse_maximized("FULL"), MaximizedState::Restored);
}

#[test]
fn position_names_parse() {
    assert_eq!(parse_position_name("editor"), Some(PaneKind::Editor));
    assert_eq!(parse_position_name("repl"), Some(PaneKind::Repl));
    assert_eq!(parse_position_name("variables"), Some(PaneKind::Variables));
    assert_eq!(parse_position_name("terminal"), Some(PaneKind::Terminal));
    assert_eq!(parse_position_name("diagram"), Some(PaneKind::Diagram));
    assert_eq!(parse_position_name("plot"), Some(PaneKind::Plot));
    assert_eq!(parse_position_name("llm"), None);
}

#[test]
fn open_file_bytes_for_vim_and_nano() {
    assert_eq!(open_file_message(false, "a.t"), b"\x1b\x1b:e a.t\r".to_vec());
    assert_eq!(open_file_message(true, "a.t"), b"\x1bF\x12a.t\r".to_vec());
}

#[test]
fn open_in_editor_writes_to_the_editor_pane() {
    let app = four_pane_app();
    let effects = app.open_in_editor("src/main.t");
    assert_eq!(effects.len(), 1);
    assert_eq!(write_of(&effects[0]), (0, b"\x1b\x1b:e src/main.t\r".to_vec()));
}

#[test]
fn open_in_editor_without_editor_does_nothing() {
    let mut app = four_pane_app();
    app.pane_kinds = vec![PaneKind::Repl];
    assert!(app.open_in_editor("x").is_empty());
}

#[test]
fn save_all_and_quit_for_vim() {
    let mut app = four_pane_app();
    let effects = app.save_all_and_quit();
    assert!(app.should_quit);
    assert_eq!(effects.len(), 1);
    assert_eq!(write_of(&effects[0]), (0, b"\x1b\x1b:wa\r".to_vec()));
}

#[test]
fn save_all_and_quit_for_nano() {
    let mut app = nano_app();
    assert!(app.is_nano());
    let effects = app.save_all_and_quit();
    assert_eq!(write_of(&effects[0]), (0, vec![0x0f, 13, 0x18]));
}

#[test]
fn slot_positions_find_panes() {
    let app = four_pane_app();
    assert_eq!(app.pane_index_at_physical_pos(0), Some(0));
    assert_eq!(app.pane_index_at_physical_pos(3), Some(3));
    assert_eq!(app.pane_index_at_physical_pos(4), None);
    let mut other = four_pane_app();
    other.config.layout.positions = vec!["terminal".to_string(), "bogus".to_string()];
    assert_eq!(other.pane_index_at_physical_pos(0), Some(3));
    assert_eq!(other.pane_index_at_physical_pos(1), None);
    assert_eq!(other.pane_index_at_physical_pos(2), None);
}

#[test]
fn maximize_is_kept_only_for_the_focused_slot() {
    let mut app = four_pane_app();
    app.focus = 1;
    app.maximized = MaximizedState::Full;
    assert!(app.should_preserve_maximized(1));
    assert!(!app.should_preserve_maximized(0));
    app.maximized = MaximizedState::Restored;
    assert!(!app.should_preserve_maximized(1));
}

#[test]
fn context_refresh_is_rate_limited() {
    let mut app = four_pane_app();
    assert!(!app.refresh_llm_context(499));
    assert_eq!(app.last_llm_context_refresh, 0);
    assert!(app.refresh_llm_context(500));
    assert_eq!(app.last_llm_context_refresh, 500);
    assert!(!app.refresh_llm_context(600));
    assert!(!app.refresh_llm_context(10));
}

#[test]
fn gutter_line_numbers_are_removed() {
    assert_eq!(App::clean_editor_line("  12 let x = 1   "), "let x = 1");
    assert_eq!(App::clean_editor_line("  3 \u{2502} foo"), "foo");
    assert_eq!(App::clean_editor_line("7| bar"), "bar");
    assert_eq!(App::clean_editor_line("hello"), "hello");
}

#[test]
fn arithmetic_after_a_number_is_kept() {
    assert_eq!(App::clean_editor_line("  12 + 3"), "  12 + 3");
    assert_eq!(App::clean_editor_line("12"), "12");
}

#[test]
fn a_bar_far_into_the_line_is_no_gutter() {
    assert_eq!(App::clean_editor_line("abcdefghijklmn | x"), "abcdefghijklmn | x");
}

#[test]
fn blank_lines_are_not_sent() {
    assert_eq!(App::line_to_send(Some("   ")), None);
    assert_eq!(App::line_to_send(None), None);
    assert_eq!(App::line_to_send(Some(" 4 x <- 1")), Some("x <- 1".to_string()));
}

#[test]
fn mouse_wheel_scrolls_the_focused_pane() {
    let app = four_pane_app();
    let up = app.mouse_scroll(true);
    assert!(matches!(up[0], Effect::Scroll { pane: 0, rows: 3 }));
    let down = app.mouse_scroll(false);
    assert!(matches!(down[0], Effect::Scroll { pane: 0, rows: -3 }));
    let mut lost = four_pane_app();
    lost.focus = 9;
    assert!(lost.mouse_scroll(true).is_empty());
}

#[test]
fn repl_text_comes_from_transcript_line_or_clipboard() {
    let mut app = four_pane_app();
    app.pane_kinds.push(PaneKind::Transcript);
    app.focus = 4;
    match app.repl_text_source(false, Some("sel"), Some("ignored")) {
        TextSource::Text(t) => assert_eq!(t, "sel"),
        TextSource::Clipboard => panic!("expected the selection"),
    }
    app.focus = 0;
    assert!(matches!(app.repl_text_source(true, Some("sel"), Some("x")), TextSource::Clipboard));
    match app.repl_text_source(false, None, Some("  4 foo ")) {
        TextSource::Text(t) => assert_eq!(t, "foo"),
        TextSource::Clipboard => panic!("expected the line"),
    }
    assert!(matches!(app.repl_text_source(false, None, Some("  ")), TextSource::Clipboard));
    assert!(matches!(app.repl_text_source(false, None, None), TextSource::Clipboard));
}

#[test]
fn editor_text_comes_from_transcript_or_clipboard() {
    let mut app = four_pane_app();
    app.pane_kinds.push(PaneKind::Transcript);
    app.focus = 4;
    match app.editor_text_source(Some("sel")) {
        TextSource::Text(t) => assert_eq!(t, "sel"),
        TextSource::Clipboard => panic!("expected the selection"),
    }
    app.focus = 1;
    assert!(matches!(app.editor_text_source(Some("sel")), TextSource::Clipboard));
}

#[test]
fn sending_to_the_repl_types_enters_and_records() {
    let app = four_pane_app();
    let effects = app.send_to_repl("1 + 1");
    assert_eq!(effects.len(), 3);
    assert_eq!(write_of(&effects[0]), (1, b"1 + 1".to_vec()));
    assert_eq!(write_of(&effects[1]), (1, vec![13u8]));
    match &effects[2] {
        Effect::RecordTranscript { sent } => assert_eq!(sent, "1 + 1"),
        other => panic!("unexpected {other:?}"),
    }
    assert!(app.send_to_repl("").is_empty());
}

#[test]
fn sending_to_the_editor_opens_a_line_in_vim() {
    let app = four_pane_app();
    let effects = app.send_to_editor("x");
    assert_eq!(write_of(&effects[0]), (0, b"\x1b\x1box\x1b".to_vec()));
    assert!(app.send_to_editor("").is_empty());
}

#[test]
fn sending_to_nano_types_the_text() {
    let app = nano_app();
    let effects = app.send_to_editor("abc");
    assert_eq!(write_of(&effects[0]), (0, b"abc".to_vec()));
}

#[test]
fn focused_pane_is_checked() {
    let mut app = four_pane_app();
    assert_eq!(app.focused_pane(), Some(0));
    app.focus = 7;
    assert_eq!(app.focused_pane(), None);
}
