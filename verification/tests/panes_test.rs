use atelier::config::Config;
use atelier::context::AtelierContext;
use atelier::diagram::{DiagramNote, DiagramPane, FileCheck, RenderMsg, RenderStatus};
use atelier::llm::{LlmPane, LlmState};
use atelier::pane::PaneKind;
use atelier::plot::{file_name_of, image_files, is_image_path, sort_paths, LoadEvent, PlotInput, PlotPane};
use atelier::tabs::TabContainer;
use atelier::transcript::{push_decimal, TranscriptLine, TranscriptPane};
use atelier::vars::{FileProbe, TypeStyle, VarsPane};

const CSV: &str = "name,type,value\n\"x\",\"Int\",\"1\"\ny,String,hello, world\nz,Float,2.5\n";

fn loaded_vars() -> VarsPane {
    let mut v = VarsPane::new("/tmp/atelier-vars.csv".to_string());
    v.check_updates(FileProbe::Stamped(5), Some(CSV));
    v
}

#[test]
fn vars_file_is_read_into_rows() {
    let rows = VarsPane::read_csv(CSV);
    let got: Vec<(String, String, String)> =
        rows.into_iter().map(|e| (e.name, e.var_type, e.value)).collect();
    assert_eq!(
        got,
        vec![
            ("x".to_string(), "Int".to_string(), "1".to_string()),
            ("y".to_string(), "String".to_string(), "hello, world".to_string()),
            ("z".to_string(), "Float".to_string(), "2.5".to_string()),
        ]
    );
}

#[test]
fn vars_reload_only_on_a_new_stamp() {
    let mut v = loaded_vars();
    assert_eq!(v.len(), 3);
    assert_eq!(v.csv_path(), "/tmp/atelier-vars.csv");
    assert!(!v.wants_reload(FileProbe::Stamped(5)));
    assert!(v.wants_reload(FileProbe::Stamped(6)));
    assert!(!v.wants_reload(FileProbe::Unstamped));
    assert!(!v.wants_reload(FileProbe::Missing));
    v.check_updates(FileProbe::Stamped(5), Some("h\n"));
    assert_eq!(v.len(), 3);
    v.check_updates(FileProbe::Stamped(6), None);
    assert_eq!(v.len(), 0);
}

#[test]
fn vars_cleared_when_the_file_goes() {
    let mut v = loaded_vars();
    v.check_updates(FileProbe::Missing, None);
    assert_eq!(v.len(), 0);
    assert!(v.wants_reload(FileProbe::Stamped(5)));
}

#[test]
fn vars_selection_wraps_both_ways() {
    let mut v = loaded_vars();
    assert_eq!(v.selected(), 0);
    v.write_input(b"k");
    assert_eq!(v.selected(), 2);
    v.write_input(b"j");
    assert_eq!(v.selected(), 0);
    v.write_input(b"\x1b[B");
    assert_eq!(v.selected(), 1);
    v.write_input(b"\x1b[A");
    assert_eq!(v.selected(), 0);
    v.write_input(b"x");
    assert_eq!(v.selected(), 0);
}

#[test]
fn vars_down_then_up_gives_the_selection_back() {
    let mut v = loaded_vars();
    for start in 0..3 {
        while v.selected() != start {
            v.write_input(b"j");
        }
        v.write_input(b"j");
        v.write_input(b"k");
        assert_eq!(v.selected(), start);
    }
}

#[test]
fn vars_window_keeps_the_selection_visible() {
    let mut v = loaded_vars();
    v.write_input(b"k");
    assert_eq!(v.visible_range(2), Some((2, 3)));
    assert_eq!(v.visible_range(10), Some((0, 3)));
    assert_eq!(v.visible_range(1), None);
    let (lo, hi) = v.visible_range(3).unwrap();
    assert!(lo <= v.selected() && v.selected() < hi);
}

#[test]
fn vars_entry_and_explain_name() {
    let mut v = loaded_vars();
    v.write_input(b"j");
    assert_eq!(v.entry(1), ("y", "String", "hello, world"));
    assert_eq!(v.explain_name(), Some("y".to_string()));
    let empty = VarsPane::new("p".to_string());
    assert_eq!(empty.explain_name(), None);
}

#[test]
fn type_styles() {
    assert_eq!(VarsPane::style_for_type("Int"), TypeStyle::Numeric);
    assert_eq!(VarsPane::style_for_type("Float"), TypeStyle::Numeric);
    assert_eq!(VarsPane::style_for_type("String"), TypeStyle::Text);
    assert_eq!(VarsPane::style_for_type("DataFrame"), TypeStyle::Plain);
}

#[test]
fn decimal_digits() {
    let mut s = String::from("n=");
    push_decimal(&mut s, 0);
    push_decimal(&mut s, 1207);
    assert_eq!(s, "n=01207");
}

#[test]
fn transcript_selects_the_newest_entry() {
    let mut t = TranscriptPane::new();
    assert_eq!(t.get_selected_entry(), None);
    t.push_entry("a", "ra");
    t.push_entry("b", "rb");
    assert_eq!(t.len(), 2);
    assert_eq!(t.get_selected_entry(), Some("b"));
    t.scroll_up();
    assert_eq!(t.get_selected_entry(), Some("a"));
    t.scroll_up();
    assert_eq!(t.get_selected_entry(), Some("a"));
    t.write_input(b"j");
    assert_eq!(t.get_selected_entry(), Some("b"));
    t.write_input(b"j");
    assert_eq!(t.get_selected_entry(), Some("b"));
    t.write_input(b"A");
    assert_eq!(t.get_selected_entry(), Some("a"));
    t.scroll(-5);
    assert_eq!(t.get_selected_entry(), Some("b"));
    t.scroll(1);
    assert_eq!(t.get_selected_entry(), Some("a"));
}

#[test]
fn transcript_markdown() {
    let mut t = TranscriptPane::new();
    assert_eq!(t.to_markdown(), "# Atelier REPL Transcript\n\n");
    t.push_entry("x <- 1", "");
    assert_eq!(
        t.to_markdown(),
        "# Atelier REPL Transcript\n\n## Entry 1\n\n### Sent\n\n```\nx <- 1\n```\n\n### Response\n\n```\n\n```\n\n"
    );
}

fn tabs() -> TabContainer {
    TabContainer::new(
        vec!["Terminal".to_string(), "LLM".to_string()],
        vec![PaneKind::Terminal, PaneKind::Llm],
        PaneKind::Terminal,
    )
}

#[test]
fn tab_title_shows_all_tabs() {
    let t = tabs();
    assert_eq!(t.name(), "Terminal [Terminal | LLM]");
    assert_eq!(t.active(), Some(0));
    assert_eq!(t.kind(), PaneKind::Terminal);
    assert_eq!(TabContainer::build_name(&vec!["A".to_string()], 3), "A");
}

#[test]
fn tabs_switch_and_wrap() {
    let mut t = tabs();
    t.switch_tab(1);
    assert_eq!(t.active(), Some(1));
    assert_eq!(t.name(), "LLM [Terminal | LLM]");
    t.switch_tab(1);
    assert_eq!(t.active(), Some(0));
    t.switch_tab(-1);
    assert_eq!(t.active(), Some(1));
    t.switch_tab(1);
    t.switch_tab(-1);
    assert_eq!(t.active(), Some(1));
}

#[test]
fn switch_to_tab_by_kind() {
    let mut t = tabs();
    assert!(t.switch_to_tab(PaneKind::Llm));
    assert_eq!(t.active(), Some(1));
    assert!(!t.switch_to_tab(PaneKind::Plot));
    assert_eq!(t.active(), Some(1));
}

fn ctx(line: &str) -> AtelierContext {
    AtelierContext::gather(Some(line), None, None, "", &vec![])
}

#[test]
fn assistant_args_follow_the_context_mode() {
    let mut c = Config::default().llm;
    assert!(LlmPane::new(c.clone()).build_args().is_empty());
    c.args = vec!["--x".to_string()];
    c.context_mode = "flag".to_string();
    c.context_flag = "--context".to_string();
    c.context_path = "/tmp/c.md".to_string();
    assert_eq!(LlmPane::new(c.clone()).build_args(), vec!["--x", "--context", "/tmp/c.md"]);
    c.context_flag = String::new();
    assert_eq!(LlmPane::new(c).build_args(), vec!["--x"]);
}

#[test]
fn assistant_restarts_only_for_new_context() {
    let mut p = LlmPane::new(Config::default().llm);
    assert_eq!(p.status_text(), "Press l in Nav mode to start LLM with context.");
    let first = ctx("a");
    let launch = p.push_context(&first).expect("a first context starts the assistant");
    assert_eq!(launch.markdown, first.to_markdown());
    assert_eq!(launch.command, "opencode");
    assert_eq!(launch.context_path, "/tmp/atelier-llm-context.md");
    assert!(launch.stdin.is_none());
    assert_eq!(p.pending_context, Some(first.to_markdown()));
    p.started(first.hash);
    assert_eq!(p.state, LlmState::Running { last_context_hash: first.hash });
    assert_eq!(p.status_text(), "Initialising...");
    assert!(p.push_context(&first).is_none());
    assert!(p.push_context(&ctx("b")).is_some());
    p.failed();
    assert_eq!(p.status_text(), "LLM process failed to start.");
    assert!(p.push_context(&first).is_some());
}

#[test]
fn assistant_in_stdin_mode_types_the_context() {
    let mut c = Config::default().llm;
    c.context_mode = "stdin".to_string();
    let mut p = LlmPane::new(c);
    let x = ctx("q");
    let launch = p.push_context(&x).unwrap();
    let mut expected = x.to_markdown().into_bytes();
    expected.push(b'\n');
    assert_eq!(launch.stdin, Some(expected));
}

#[test]
fn image_paths() {
    assert_eq!(file_name_of("/a/b/c.png"), "c.png");
    assert_eq!(file_name_of("plain"), "plain");
    assert!(is_image_path("/x/y.webp"));
    assert!(is_image_path("p.jpeg"));
    assert!(!is_image_path("/x/y.png.txt"));
    assert!(!is_image_path("/x/.png"));
    assert!(!is_image_path("/x.png/readme"));
}

#[test]
fn paths_sort_and_images_filter() {
    let v = |xs: &[&str]| xs.iter().map(|x| x.to_string()).collect::<Vec<String>>();
    assert_eq!(sort_paths(v(&["b", "a", "c", "a"])), v(&["a", "a", "b", "c"]));
    assert_eq!(image_files(&v(&["/d/b.png", "/d/n.txt", "/d/a.jpg"])), v(&["/d/a.jpg", "/d/b.png"]));
}

fn listing() -> Vec<String> {
    vec!["/d/b.png".to_string(), "/d/notes.txt".to_string(), "/d/a.jpg".to_string(), "/d/.png".to_string()]
}

#[test]
fn plot_scan_selects_and_loads_the_first() {
    let mut p = PlotPane::new("/d".to_string(), 0);
    assert_eq!(p.directory(), "/d");
    assert_eq!(p.scan(Some(listing())), Some("/d/a.jpg".to_string()));
    assert_eq!(p.file_count(), 2);
    assert_eq!(p.selected(), 0);
    assert_eq!(p.status(), Some("Loading..."));
    p.check_loads(LoadEvent::Loaded);
    assert!(p.has_image());
    assert_eq!(p.status(), None);
}

#[test]
fn plot_missing_directory() {
    let mut p = PlotPane::new("/nope".to_string(), 0);
    assert_eq!(p.scan(None), None);
    assert_eq!(p.status(), Some("Plot directory not found"));
    assert_eq!(p.file_count(), 0);
}

#[test]
fn plot_arrows_wrap_and_load() {
    let mut p = PlotPane::new("/d".to_string(), 0);
    p.scan(Some(listing()));
    p.check_loads(LoadEvent::Loaded);
    match p.write_input(b"l", 10) {
        PlotInput::Load(f) => assert_eq!(f, "/d/b.png"),
        other => panic!("unexpected {other:?}"),
    }
    assert_eq!(p.selected(), 1);
    p.check_loads(LoadEvent::Failed("bad image".to_string()));
    assert_eq!(p.status(), Some("bad image"));
    match p.write_input(b"\x1b[C", 20) {
        PlotInput::Load(f) => assert_eq!(f, "/d/a.jpg"),
        other => panic!("unexpected {other:?}"),
    }
    assert_eq!(p.selected(), 0);
    p.check_loads(LoadEvent::Disconnected);
    assert_eq!(p.status(), Some("Load process failed"));
    p.write_input(b"h", 30);
    assert_eq!(p.selected(), 1);
    assert!(matches!(p.write_input(b"r", 40), PlotInput::Rescan));
    assert!(matches!(p.write_input(b"z", 40), PlotInput::Nothing));
}

#[test]
fn plot_next_then_previous_gives_the_plot_back() {
    let mut p = PlotPane::new("/d".to_string(), 0);
    p.scan(Some(listing()));
    p.write_input(b"l", 0);
    p.write_input(b"h", 0);
    assert_eq!(p.selected(), 0);
}

#[test]
fn plot_rescan_keeps_the_selected_file() {
    let mut p = PlotPane::new("/d".to_string(), 0);
    p.scan(Some(listing()));
    assert!(!p.begin_rescan(400));
    assert!(p.begin_rescan(500));
    p.write_input(b"l", 0);
    assert!(!p.needs_relist(&listing()));
    let mut unchanged = listing();
    unchanged.push("/d/readme.txt".to_string());
    assert!(!p.needs_relist(&unchanged));
    let mut swapped = listing();
    swapped[0] = "/d/c.png".to_string();
    assert!(p.needs_relist(&swapped));
    let mut more = listing();
    more.push("/d/0.png".to_string());
    assert!(p.needs_relist(&more));
    p.apply_rescan(true, Some(more));
    assert_eq!(p.file_count(), 3);
    assert_eq!(p.selected(), 2);
    p.apply_rescan(false, None);
    assert_eq!(p.file_count(), 0);
    assert_eq!(p.status(), Some("Plot directory not found"));
}

fn diagram() -> DiagramPane {
    DiagramPane::new(
        "/tmp/atelier/pipeline.dot".to_string(),
        "dot".to_string(),
        vec!["-Tpng".to_string()],
        0,
    )
}

#[test]
fn diagram_renders_a_changed_file() {
    let mut d = diagram();
    assert_eq!(d.check_file(100, FileProbe::Stamped(1)), FileCheck::Skipped);
    assert_eq!(d.check_file(300, FileProbe::Stamped(1)), FileCheck::Changed);
    let job = d.on_source_changed("digraph {}".to_string()).expect("a render starts");
    assert_eq!(job.path, "/tmp/atelier/pipeline.dot");
    assert_eq!(job.command, "dot");
    assert_eq!(job.args, vec!["-Tpng".to_string()]);
    assert!(d.awaiting());
    assert_eq!(d.source_text(), "digraph {}");
    d.receive(RenderMsg::Rendering);
    assert!(matches!(d.render_state(), RenderStatus::Rendering));
    d.receive(RenderMsg::Done);
    assert!(d.has_image());
    assert!(!d.awaiting());
    assert!(matches!(d.render_state(), RenderStatus::Done));
    assert_eq!(d.check_file(600, FileProbe::Stamped(1)), FileCheck::Unchanged);
}

#[test]
fn diagram_change_during_render_renders_again() {
    let mut d = diagram();
    d.check_file(300, FileProbe::Stamped(1));
    d.on_source_changed("a".to_string()).unwrap();
    assert_eq!(d.check_file(600, FileProbe::Stamped(2)), FileCheck::Changed);
    assert!(d.on_source_changed("b".to_string()).is_none());
    d.receive(RenderMsg::Done);
    assert_eq!(d.check_file(900, FileProbe::Stamped(2)), FileCheck::Changed);
    assert!(d.on_source_changed("b".to_string()).is_some());
}

#[test]
fn diagram_failures_and_disconnects() {
    let mut d = diagram();
    d.receive(RenderMsg::Done);
    assert!(!d.has_image());
    d.check_file(300, FileProbe::Stamped(1));
    d.on_source_changed("x".to_string());
    d.receive(RenderMsg::Failed("syntax error".to_string()));
    assert!(matches!(d.render_state(), RenderStatus::Failed(m) if m == "syntax error"));
    d.write_input(b"r");
    assert_eq!(d.check_file(600, FileProbe::Stamped(1)), FileCheck::Changed);
    d.on_source_changed("x".to_string());
    d.receive(RenderMsg::Rendering);
    d.receive(RenderMsg::Disconnected);
    assert!(matches!(d.render_state(), RenderStatus::Failed(m) if m == "Render process disconnected"));
    assert!(!d.write_input(b"q"));
}

#[test]
fn diagram_file_gone_clears_the_source() {
    let mut d = diagram();
    d.check_file(300, FileProbe::Stamped(1));
    d.on_source_changed("x".to_string());
    d.receive(RenderMsg::Done);
    assert_eq!(d.check_file(600, FileProbe::Missing), FileCheck::Gone);
    assert_eq!(d.source_text(), "");
    assert!(!d.has_image());
    assert!(matches!(d.render_state(), RenderStatus::Idle));
    assert_eq!(d.watch_path(), "/tmp/atelier/pipeline.dot");
}

#[test]
fn transcript_lines_from_the_selection_down() {
    let mut t = TranscriptPane::new();
    let hint = t.lines();
    assert_eq!(hint.len(), 1);
    assert!(matches!(hint[0], TranscriptLine::Hint));
    t.push_entry("a", "");
    let one = t.lines();
    assert_eq!(one.len(), 3);
    assert!(matches!(one[0], TranscriptLine::Header { number: 1, selected: true }));
    t.push_entry("b", "");
    t.push_entry("c", "");
    t.scroll_up();
    let lines = t.lines();
    assert_eq!(lines.len(), 7);
    assert!(matches!(lines[0], TranscriptLine::Header { number: 2, selected: true }));
    assert!(matches!(&lines[1], TranscriptLine::Sent(s) if s == "b"));
    assert!(matches!(lines[2], TranscriptLine::Blank));
    assert!(matches!(lines[3], TranscriptLine::Header { number: 3, selected: false }));
    assert!(matches!(lines[6], TranscriptLine::Footer { position: 2, total: 3 }));
}

#[test]
fn diagram_notes() {
    let mut d = diagram();
    assert_eq!(d.note(), DiagramNote::Waiting);
    d.check_file(300, FileProbe::Stamped(1));
    d.on_source_changed("digraph {}".to_string());
    assert_eq!(d.note(), DiagramNote::Source);
    d.receive(RenderMsg::Rendering);
    assert_eq!(d.note(), DiagramNote::Rendering);
    d.receive(RenderMsg::Failed("bad".to_string()));
    assert_eq!(d.note(), DiagramNote::Failed);
}

#[test]
fn one_render_at_a_time() {
    let mut d = diagram();
    d.check_file(300, FileProbe::Stamped(1));
    assert!(d.on_source_changed("a".to_string()).is_some());
    assert_eq!(d.check_file(400, FileProbe::Stamped(2)), FileCheck::Skipped);
    assert_eq!(d.check_file(700, FileProbe::Stamped(2)), FileCheck::Changed);
    assert!(d.on_source_changed("b".to_string()).is_none());
    assert!(d.on_source_changed("c".to_string()).is_none());
}
