use atelier::app::{App, InputMode, MaximizedState, Overlay};
use atelier::config::Config;
use atelier::filetree::{filetree_listing, sort_entries, text_le_exec};
use atelier::launch::{cleanup_targets, default_editor_choice, editor_for_choice, editor_launch_args, first_launch_config};
use atelier::layout::{centered_span, focused_slot, regions_for, slot_kinds, slot_panes, Region};
use atelier::pane::{position_of_kind, PaneKind};
use atelier::pty::{cell_style, cursor_in_view, pty_command, PtySize, TermColor};
use atelier::text::chars_of;

fn strings(xs: &[&str]) -> Vec<String> {
    xs.iter().map(|x| x.to_string()).collect()
}

fn app() -> App {
    let mut a = App::new(Config::default(), Some("/proj".to_string()), 0);
    a.pane_kinds = vec![PaneKind::Editor, PaneKind::Repl, PaneKind::Variables, PaneKind::Terminal];
    a
}

#[test]
fn slot_kinds_follow_the_positions() {
    let k = slot_kinds(&strings(&["plot", "bogus"]));
    assert_eq!(k, vec![PaneKind::Plot, PaneKind::Repl, PaneKind::Variables, PaneKind::Terminal]);
}

#[test]
fn slot_panes_find_the_first_pane_of_each_kind() {
    let kinds = vec![PaneKind::Editor, PaneKind::Repl, PaneKind::Plot, PaneKind::Terminal];
    let panes = vec![PaneKind::Editor, PaneKind::Repl, PaneKind::Variables, PaneKind::Terminal];
    assert_eq!(slot_panes(&kinds, &panes), vec![0, 1, 2, 3]);
    assert_eq!(focused_slot(&vec![0, 1, 2, 3], 3), 3);
    assert_eq!(focused_slot(&vec![0, 1, 2, 3], 9), 0);
}

#[test]
fn regions_under_each_maximize_state() {
    assert_eq!(regions_for(MaximizedState::Restored, 2), vec![Region::TopLeft, Region::TopRight, Region::BottomLeft, Region::BottomRight]);
    assert_eq!(regions_for(MaximizedState::Full, 1), vec![Region::Hidden, Region::Whole, Region::Hidden, Region::Hidden]);
    assert_eq!(regions_for(MaximizedState::Vertical, 0), vec![Region::LeftHalf, Region::TopRight, Region::Hidden, Region::BottomRight]);
    assert_eq!(regions_for(MaximizedState::Horizontal, 3), vec![Region::TopLeft, Region::TopRight, Region::Hidden, Region::BottomHalf]);
}

#[test]
fn pane_regions_of_the_app() {
    let mut a = app();
    assert_eq!(
        a.pane_regions(),
        vec![Region::TopLeft, Region::TopRight, Region::BottomLeft, Region::BottomRight]
    );
    a.focus = 2;
    a.maximized = MaximizedState::Full;
    assert_eq!(a.pane_regions(), vec![Region::Hidden, Region::Hidden, Region::Whole, Region::Hidden]);
    a.pane_kinds.push(PaneKind::Transcript);
    a.focus = 4;
    assert!(a.floats_focused());
    assert_eq!(a.pane_regions()[4], Region::Hidden);
}

#[test]
fn status_bar_mode_and_height() {
    let mut a = app();
    assert_eq!(a.mode_label(), "NORMAL");
    assert_eq!(a.status_height(), 1);
    a.mode = InputMode::Navigation;
    assert_eq!(a.mode_label(), "NAV");
    assert_eq!(a.status_height(), 3);
    a.overlay = Some(Overlay::Help);
    assert_eq!(a.mode_label(), "OVERLAY");
    assert_eq!(a.status_height(), 1);
}

#[test]
fn centered_boxes() {
    assert_eq!(centered_span(100, 60), (20, 60));
    assert_eq!(centered_span(81, 50), (20, 40));
    assert_eq!(centered_span(65535, 100), (0, 65535));
    assert_eq!(centered_span(10, 0), (5, 0));
}

#[test]
fn position_of_kind_finds_the_first() {
    let k = vec![PaneKind::Repl, PaneKind::Llm, PaneKind::Llm];
    assert_eq!(position_of_kind(&k, PaneKind::Llm), Some(1));
    assert_eq!(position_of_kind(&k, PaneKind::Plot), None);
}

#[test]
fn pty_command_inside_a_project() {
    let c = pty_command("t", &strings(&["repl"]), Some("/proj"));
    assert_eq!(c.program, "nix");
    assert_eq!(c.args, strings(&["develop", "/proj", "--command", "t", "repl"]));
    assert_eq!(
        c.env,
        vec![
            ("TLANG_REPO_ROOT".to_string(), "/proj".to_string()),
            ("REPO_DIR".to_string(), "/proj".to_string()),
            ("ATELIER_ACTIVE".to_string(), "1".to_string()),
        ]
    );
}

#[test]
fn pty_command_without_a_project() {
    let c = pty_command("bash", &vec![], None);
    assert_eq!(c.program, "bash");
    assert!(c.args.is_empty());
    assert_eq!(c.env, vec![("ATELIER_ACTIVE".to_string(), "1".to_string())]);
}

#[test]
fn cell_styles_drop_default_and_black_backgrounds() {
    let s = cell_style(TermColor::Idx(1), TermColor::Idx(0), true, false, true, false);
    assert_eq!(s.fg, Some(TermColor::Idx(1)));
    assert_eq!(s.bg, None);
    assert!(s.bold && s.underline && !s.italic && !s.reversed);
    let t = cell_style(TermColor::Default, TermColor::Rgb(1, 2, 3), false, true, false, true);
    assert_eq!(t.fg, None);
    assert_eq!(t.bg, Some(TermColor::Rgb(1, 2, 3)));
    assert_eq!(cell_style(TermColor::Default, TermColor::Idx(16), false, false, false, false).bg, None);
    assert_eq!(cell_style(TermColor::Default, TermColor::Rgb(0, 0, 0), false, false, false, false).bg, None);
}

#[test]
fn cursor_is_drawn_only_inside() {
    assert_eq!(cursor_in_view(2, 5, 10, 80), Some((5, 2)));
    assert_eq!(cursor_in_view(10, 5, 10, 80), None);
    assert_eq!(cursor_in_view(0, 80, 10, 80), None);
}

#[test]
fn resize_reports_changes() {
    let mut s = PtySize { cols: 80, rows: 24 };
    assert!(!s.resize(80, 24));
    assert!(s.resize(100, 24));
    assert_eq!((s.cols, s.rows), (100, 24));
}

#[test]
fn text_order() {
    assert!(text_le_exec(&chars_of("abc"), &chars_of("abd")));
    assert!(text_le_exec(&chars_of("ab"), &chars_of("abc")));
    assert!(!text_le_exec(&chars_of("b"), &chars_of("abc")));
    assert!(text_le_exec(&chars_of(""), &chars_of("")));
}

#[test]
fn entries_sort_directories_first() {
    let items = vec![
        ("b.t".to_string(), false),
        ("z".to_string(), true),
        ("a.t".to_string(), false),
        ("c".to_string(), true),
    ];
    assert_eq!(
        sort_entries(items),
        vec![
            ("c".to_string(), true),
            ("z".to_string(), true),
            ("a.t".to_string(), false),
            ("b.t".to_string(), false),
        ]
    );
}

fn listed() -> Vec<(String, String, bool)> {
    vec![
        ("/p/src".to_string(), "src".to_string(), true),
        ("/p/.git".to_string(), ".git".to_string(), true),
        ("/p/main.t".to_string(), "main.t".to_string(), false),
    ]
}

#[test]
fn listing_hides_dot_files_and_offers_the_parent() {
    assert_eq!(
        filetree_listing(&listed(), true),
        vec![("..".to_string(), true), ("/p/src".to_string(), true), ("/p/main.t".to_string(), false)]
    );
    assert_eq!(
        filetree_listing(&listed(), false),
        vec![("/p/src".to_string(), true), ("/p/main.t".to_string(), false)]
    );
}

#[test]
fn refresh_offers_the_parent_below_the_root_only() {
    let mut a = app();
    a.filetree_selection = 2;
    a.refresh_filetree(&listed());
    assert_eq!(a.filetree_selection, 0);
    assert!(a.filetree_entries.iter().all(|(p, _)| p != ".."));
    a.filetree_current = "/proj/src".to_string();
    a.refresh_filetree(&listed());
    assert_eq!(a.filetree_entries[0], ("..".to_string(), true));
}

#[test]
fn first_choice_prefers_nvim_then_nano() {
    assert_eq!(default_editor_choice(true, true, true, true), "1");
    assert_eq!(default_editor_choice(false, true, true, true), "3");
    assert_eq!(default_editor_choice(false, true, false, true), "2");
    assert_eq!(default_editor_choice(false, false, false, true), "4");
    assert_eq!(default_editor_choice(false, false, false, false), "1");
}

#[test]
fn editor_choices() {
    assert_eq!(editor_for_choice("", "3"), ("nano".to_string(), vec![]));
    assert_eq!(editor_for_choice(" 2 ", "1"), ("vim".to_string(), strings(&["--cmd", "set shortmess+=I"])));
    assert_eq!(editor_for_choice("vi", "1"), ("vi".to_string(), strings(&["--cmd", "set shortmess+=I"])));
    assert_eq!(editor_for_choice("emacs", "3"), ("nano".to_string(), vec![]));
    assert_eq!(editor_for_choice("emacs", "9"), ("nvim".to_string(), strings(&["--cmd", "set shortmess+=I"])));
}

#[test]
fn first_launch_keeps_the_other_defaults() {
    let c = first_launch_config("nano".to_string(), vec![]);
    assert_eq!(c.editor.command, "nano");
    assert!(c.editor.args.is_empty());
    assert_eq!(c.repl.command, "t");
    assert_eq!(c.layout.positions, strings(&["editor", "repl", "variables", "terminal"]));
}

#[test]
fn vim_like_editors_get_background_options() {
    let args = editor_launch_args("/usr/bin/nvim", &vec![]);
    assert_eq!(args.len(), 6);
    assert_eq!(&args[..3], &strings(&["--cmd", "set shortmess+=I", "--cmd"])[..]);
    assert!(args[3].starts_with("autocmd ColorScheme * highlight Normal ctermbg=NONE"));
    assert_eq!(args[4], "--cmd");
    assert!(args[5].starts_with("highlight Normal ctermbg=NONE guibg=NONE"));
    let custom = editor_launch_args("vim", &strings(&["-u", "NONE"]));
    assert_eq!(&custom[..2], &strings(&["-u", "NONE"])[..]);
    assert_eq!(custom.len(), 6);
    assert_eq!(editor_launch_args("nano", &strings(&["-l"])), strings(&["-l"]));
}

#[test]
fn temporary_files_to_clean() {
    let (files, dirs) = cleanup_targets();
    assert_eq!(
        files,
        strings(&["/tmp/atelier-vars.csv", "/tmp/atelier-cmd", "/tmp/atelier-buffers.txt", "/tmp/atelier-llm-context.md"])
    );
    assert_eq!(dirs, strings(&["/tmp/atelier", "/tmp/atelier-plots"]));
}

#[test]
fn the_root_spelled_differently_is_still_the_root() {
    let mut a = app();
    a.filetree_current = "/proj/".to_string();
    a.refresh_filetree(&listed());
    assert!(a.filetree_entries.iter().all(|(p, _)| p != ".."));
    a.filetree_current = "/proj/./src".to_string();
    a.refresh_filetree(&listed());
    assert_eq!(a.filetree_entries[0], ("..".to_string(), true));
}

#[test]
fn parent_directory() {
    let mut a = app();
    a.filetree_current = "/proj/src".to_string();
    a.enter_parent_dir();
    assert_eq!(a.filetree_current, "/proj");
    a.filetree_current = "/".to_string();
    a.enter_parent_dir();
    assert_eq!(a.filetree_current, "/");
}

#[test]
fn status_hints_follow_the_mode() {
    let mut a = app();
    assert_eq!(a.status_hints(), vec![("Alt-Space", " Nav Mode  "), ("Ctrl-d", " Quit  "), ("Ctrl-c", " Interrupt")]);
    assert!(a.status_more_hints().is_empty());
    a.mode = InputMode::Navigation;
    assert_eq!(a.status_hints().len(), 9);
    assert_eq!(a.status_more_hints()[0], ("m", " Max Full  "));
    a.overlay = Some(Overlay::QuitConfirm);
    assert_eq!(a.status_hints()[1], ("y", " Yes  "));
    assert!(a.status_more_hints().is_empty());
}
