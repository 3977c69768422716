use atelier::config::{
    config_dir, default_auto_context, default_context_mode, default_context_path, default_initial_maximized,
    default_llm_command, default_positions, Config, RecentProjects, MAX_RECENT,
};
use atelier::launch::Session;

fn recent(paths: &[&str]) -> RecentProjects {
    RecentProjects { paths: paths.iter().map(|p| p.to_string()).collect() }
}

#[test]
fn config_dir_is_under_home() {
    assert_eq!(config_dir(Some("/home/u")), "/home/u/.config/atelier");
    assert_eq!(config_dir(Some("/home/u/")), "/home/u/.config/atelier");
}

#[test]
fn config_dir_without_home_is_relative() {
    assert_eq!(config_dir(None), ".config/atelier");
    assert_eq!(config_dir(Some("")), ".config/atelier");
}

#[test]
fn settings_files_live_in_the_config_dir() {
    assert_eq!(Config::path(Some("/home/u")), "/home/u/.config/atelier/config.toml");
    assert_eq!(RecentProjects::path(Some("/home/u")), "/home/u/.config/atelier/recent.toml");
    assert_eq!(Session::path(Some("/home/u")), "/home/u/.config/atelier/session.toml");
    assert_eq!(Config::path(None), ".config/atelier/config.toml");
}

#[test]
fn defaults_are_the_documented_ones() {
    let c = Config::default();
    assert_eq!(c.editor.command, "nvim");
    assert_eq!(c.editor.args, vec!["--cmd".to_string(), "set shortmess+=I".to_string()]);
    assert_eq!(c.repl.command, "t");
    assert_eq!(c.repl.args, vec!["repl".to_string()]);
    assert_eq!(c.keybindings.leader, "ctrl-space");
    assert_eq!(c.layout.positions, vec!["editor", "repl", "variables", "terminal"]);
    assert_eq!(c.layout.initial_maximized, "none");
    assert_eq!(c.diagram.renderer, "dot");
    assert_eq!(c.diagram.command, "dot");
    assert_eq!(c.diagram.args, vec!["-Tpng".to_string()]);
    assert_eq!(c.diagram.watch_file, "/tmp/atelier/pipeline.dot");
    assert_eq!(c.plots.watch_dir, "/tmp/atelier-plots");
    assert_eq!(c.llm.command, "opencode");
    assert!(c.llm.args.is_empty());
    assert_eq!(c.llm.context_path, "/tmp/atelier-llm-context.md");
    assert_eq!(c.llm.context_mode, "file");
    assert_eq!(c.llm.context_flag, "");
    assert!(c.llm.auto_context);
}

#[test]
fn default_helpers_match_the_defaults() {
    assert_eq!(default_positions(), vec!["editor", "repl", "variables", "terminal"]);
    assert_eq!(default_initial_maximized(), "none");
    assert_eq!(default_llm_command(), "opencode");
    assert_eq!(default_context_path(), "/tmp/atelier-llm-context.md");
    assert_eq!(default_context_mode(), "file");
    assert!(default_auto_context());
}

#[test]
fn opened_project_moves_to_the_front() {
    let mut r = recent(&["/a", "/b", "/c"]);
    r.add_project("/b");
    assert_eq!(r.paths, vec!["/b", "/a", "/c"]);
}

#[test]
fn new_project_is_added_first() {
    let mut r = recent(&["/a"]);
    r.add_project("/z");
    assert_eq!(r.paths, vec!["/z", "/a"]);
    let mut e = recent(&[]);
    e.add_project("/only");
    assert_eq!(e.paths, vec!["/only"]);
}

#[test]
fn at_most_ten_projects_are_kept() {
    let ten: Vec<String> = (0..10).map(|i| format!("/p{i}")).collect();
    let mut r = RecentProjects { paths: ten.clone() };
    r.add_project("/new");
    assert_eq!(r.paths.len(), MAX_RECENT);
    assert_eq!(r.paths[0], "/new");
    assert_eq!(&r.paths[1..], &ten[..9]);
}

#[test]
fn opening_the_last_project_again_changes_nothing() {
    let mut r = recent(&["/a", "/b"]);
    r.add_project("/c");
    let once = r.paths.clone();
    r.add_project("/c");
    assert_eq!(r.paths, once);
}

#[test]
fn duplicates_of_the_opened_project_all_go() {
    let mut r = recent(&["/a", "/x", "/a", "/y"]);
    r.add_project("/a");
    assert_eq!(r.paths, vec!["/a", "/x", "/y"]);
}
