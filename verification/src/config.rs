//! Settings of the workspace and the list of recently opened projects.
//!
//! Reading and writing the TOML files is done by the program around the
//! library; here live the defaults, the file locations and the rules that
//! change the settings.

use vstd::prelude::*;
use crate::text::{chars_of, chars_eq, join_relative, join_path, texts, owned};

verus! {

/// The directory that holds the settings, under the user's home when it is known.
pub open spec fn config_dir_spec(home: Option<Seq<char>>) -> Seq<char> {
    match home {
        Some(h) => join_path(h, ".config/atelier"@),
        None => ".config/atelier"@,
    }
}

/// The settings directory: `<home>/.config/atelier`, or `.config/atelier`
/// when no home directory is known.
pub fn config_dir(home: Option<&str>) -> (r: String)
    ensures
        r@ == config_dir_spec(match home { Some(h) => Some(h@), None => None }),
{
    match home {
        Some(h) => join_relative(h, ".config/atelier"),
        None => owned(".config/atelier"),
    }
}

/// All settings of the workspace.
#[derive(Debug, Clone)]
pub struct Config {
    pub editor: EditorConfig,
    pub repl: ReplConfig,
    pub keybindings: KeybindingsConfig,
    pub layout: LayoutConfig,
    pub diagram: DiagramConfig,
    pub plots: PlotConfig,
    pub llm: LlmConfig,
}

/// Which pane goes in which of the four slots, and how the layout starts.
#[derive(Debug, Clone)]
pub struct LayoutConfig {
    pub positions: Vec<String>,
    pub initial_maximized: String,
}

/// The editor program and its arguments.
#[derive(Debug, Clone)]
pub struct EditorConfig {
    pub command: String,
    pub args: Vec<String>,
}

/// The REPL program and its arguments.
#[derive(Debug, Clone)]
pub struct ReplConfig {
    pub command: String,
    pub args: Vec<String>,
}

/// The key that enters navigation mode.
#[derive(Debug, Clone)]
pub struct KeybindingsConfig {
    pub leader: String,
}

/// How the pipeline diagram is rendered and which file is watched.
#[derive(Debug, Clone)]
pub struct DiagramConfig {
    pub renderer: String,
    pub command: String,
    pub args: Vec<String>,
    pub watch_file: String,
}

/// The directory the plot viewer watches.
#[derive(Debug, Clone)]
pub struct PlotConfig {
    pub watch_dir: String,
}

/// The assistant program and how context is handed to it.
#[derive(Debug, Clone)]
pub struct LlmConfig {
    pub command: String,
    pub args: Vec<String>,
    pub context_path: String,
    pub context_mode: String,
    pub context_flag: String,
    pub auto_context: bool,
}

/// The default slot assignment, left to right and top to bottom.
pub open spec fn default_positions_spec() -> Seq<Seq<char>> {
    seq!["editor"@, "repl"@, "variables"@, "terminal"@]
}

/// The default slot assignment: editor, REPL, variables, terminal.
pub fn default_positions() -> (r: Vec<String>)
    ensures
        texts(r@) == default_positions_spec(),
{
    let r = vec![owned("editor"), owned("repl"), owned("variables"), owned("terminal")];
    assert(texts(r@) =~= default_positions_spec());
    r
}

/// The layout starts with no pane maximized.
pub fn default_initial_maximized() -> (r: String)
    ensures
        r@ == "none"@,
{
    owned("none")
}

/// The default assistant program.
pub fn default_llm_command() -> (r: String)
    ensures
        r@ == "opencode"@,
{
    owned("opencode")
}

/// Where the assistant's context file is written by default.
pub fn default_context_path() -> (r: String)
    ensures
        r@ == "/tmp/atelier-llm-context.md"@,
{
    owned("/tmp/atelier-llm-context.md")
}

/// Context is handed to the assistant through a file by default.
pub fn default_context_mode() -> (r: String)
    ensures
        r@ == "file"@,
{
    owned("file")
}

/// Context is pushed to the assistant automatically by default.
pub fn default_auto_context() -> (r: bool)
    ensures
        r,
{
    true
}

/// The default layout settings.
pub open spec fn is_default_layout(l: LayoutConfig) -> bool {
    &&& texts(l.positions@) == default_positions_spec()
    &&& l.initial_maximized@ == "none"@
}

impl Default for LayoutConfig {
    fn default() -> (r: Self)
        ensures
            is_default_layout(r),
    {
        LayoutConfig { positions: default_positions(), initial_maximized: default_initial_maximized() }
    }
}

/// The default diagram settings: `dot -Tpng` on `/tmp/atelier/pipeline.dot`.
pub open spec fn is_default_diagram(d: DiagramConfig) -> bool {
    &&& d.renderer@ == "dot"@
    &&& d.command@ == "dot"@
    &&& texts(d.args@) == seq!["-Tpng"@]
    &&& d.watch_file@ == "/tmp/atelier/pipeline.dot"@
}

impl Default for DiagramConfig {
    fn default() -> (r: Self)
        ensures
            is_default_diagram(r),
    {
        let args = vec![owned("-Tpng")];
        assert(texts(args@) =~= seq!["-Tpng"@]);
        DiagramConfig {
            renderer: owned("dot"),
            command: owned("dot"),
            args,
            watch_file: owned("/tmp/atelier/pipeline.dot"),
        }
    }
}

/// The default plot settings.
pub open spec fn is_default_plots(p: PlotConfig) -> bool {
    p.watch_dir@ == "/tmp/atelier-plots"@
}

impl Default for PlotConfig {
    fn default() -> (r: Self)
        ensures
            is_default_plots(r),
    {
        PlotConfig { watch_dir: owned("/tmp/atelier-plots") }
    }
}

/// The default assistant settings.
pub open spec fn is_default_llm(l: LlmConfig) -> bool {
    &&& l.command@ == "opencode"@
    &&& l.args@.len() == 0
    &&& l.context_path@ == "/tmp/atelier-llm-context.md"@
    &&& l.context_mode@ == "file"@
    &&& l.context_flag@ == Seq::<char>::empty()
    &&& l.auto_context
}

impl Default for LlmConfig {
    fn default() -> (r: Self)
        ensures
            is_default_llm(r),
    {
        LlmConfig {
            command: default_llm_command(),
            args: Vec::new(),
            context_path: default_context_path(),
            context_mode: default_context_mode(),
            context_flag: String::new(),
            auto_context: default_auto_context(),
        }
    }
}

/// The settings written when nothing else is known.
pub open spec fn is_default_config(c: Config) -> bool {
    &&& c.editor.command@ == "nvim"@
    &&& texts(c.editor.args@) == seq!["--cmd"@, "set shortmess+=I"@]
    &&& is_default_except_editor(c)
}

/// Every setting but the editor has its default.
pub open spec fn is_default_except_editor(c: Config) -> bool {
    &&& c.repl.command@ == "t"@
    &&& texts(c.repl.args@) == seq!["repl"@]
    &&& c.keybindings.leader@ == "ctrl-space"@
    &&& is_default_layout(c.layout)
    &&& is_default_diagram(c.diagram)
    &&& is_default_plots(c.plots)
    &&& is_default_llm(c.llm)
}

impl Default for Config {
    fn default() -> (r: Self)
        ensures
            is_default_config(r),
    {
        let editor_args = vec![owned("--cmd"), owned("set shortmess+=I")];
        assert(texts(editor_args@) =~= seq!["--cmd"@, "set shortmess+=I"@]);
        let repl_args = vec![owned("repl")];
        assert(texts(repl_args@) =~= seq!["repl"@]);
        Config {
            editor: EditorConfig { command: owned("nvim"), args: editor_args },
            repl: ReplConfig { command: owned("t"), args: repl_args },
            keybindings: KeybindingsConfig { leader: owned("ctrl-space") },
            layout: LayoutConfig::default(),
            diagram: DiagramConfig::default(),
            plots: PlotConfig::default(),
            llm: LlmConfig::default(),
        }
    }
}

impl Config {
    /// The settings file inside the settings directory.
    pub fn path(home: Option<&str>) -> (r: String)
        ensures
            r@ == join_path(
                config_dir_spec(match home { Some(h) => Some(h@), None => None }),
                "config.toml"@,
            ),
    {
        let dir = config_dir(home);
        join_relative(dir.as_str(), "config.toml")
    }
}

/// How many recent projects are remembered.
pub const MAX_RECENT: usize = 10;

/// Recently opened projects, most recent first.
#[derive(Debug, Clone)]
pub struct RecentProjects {
    pub paths: Vec<String>,
}

/// The test that keeps every entry other than `path`.
pub open spec fn other_than(path: Seq<char>) -> spec_fn(Seq<char>) -> bool {
    |p: Seq<char>| p != path
}

/// The list after `path` is opened: `path` first, then the earlier entries
/// other than `path` in their order, cut to the first ten.
pub open spec fn recent_after_add(old: Seq<Seq<char>>, path: Seq<char>) -> Seq<Seq<char>> {
    let kept = seq![path] + old.filter(other_than(path));
    if kept.len() > MAX_RECENT {
        kept.take(MAX_RECENT as int)
    } else {
        kept
    }
}

impl RecentProjects {
    /// The file of recent projects inside the settings directory.
    pub fn path(home: Option<&str>) -> (r: String)
        ensures
            r@ == join_path(
                config_dir_spec(match home { Some(h) => Some(h@), None => None }),
                "recent.toml"@,
            ),
    {
        let dir = config_dir(home);
        join_relative(dir.as_str(), "recent.toml")
    }

    /// Records that `path` was opened: it moves to the front, any earlier
    /// occurrence is dropped, and at most ten entries are kept.
    pub fn add_project(&mut self, path: &str)
        ensures
            texts(final(self).paths@) == recent_after_add(texts(old(self).paths@), path@),
    {
        let ghost old_texts = texts(self.paths@);
        let ghost pred = other_than(path@);
        let target = chars_of(path);
        let mut kept: Vec<String> = Vec::new();
        kept.push(owned(path));
        let mut i: usize = 0;
        while i < self.paths.len()
            invariant
                i <= self.paths@.len(),
                old_texts == texts(self.paths@),
                target@ == path@,
                pred == other_than(path@),
                texts(kept@) == seq![path@] + old_texts.take(i as int).filter(pred),
            decreases self.paths@.len() - i,
        {
            let cur = chars_of(self.paths[i].as_str());
            proof {
                assert(old_texts.take(i + 1) =~= old_texts.take(i as int).push(old_texts[i as int]));
                old_texts.take(i as int).lemma_filter_push(old_texts[i as int], pred);
                assert(cur@ == old_texts[i as int]);
            }
            if !chars_eq(&cur, &target) {
                let ghost before = texts(kept@);
                kept.push(self.paths[i].clone());
                assert(texts(kept@) =~= before.push(old_texts[i as int]));
                assert(texts(kept@) =~= seq![path@] + old_texts.take(i + 1).filter(pred));
            } else {
                assert(texts(kept@) =~= seq![path@] + old_texts.take(i + 1).filter(pred));
            }
            i = i + 1;
        }
        assert(old_texts.take(self.paths@.len() as int) =~= old_texts);
        if kept.len() > MAX_RECENT {
            kept.truncate(MAX_RECENT);
            assert(texts(kept@) =~= (seq![path@] + old_texts.filter(pred)).take(MAX_RECENT as int));
        }
        self.paths = kept;
    }
}

} // verus!
