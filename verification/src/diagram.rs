//! The pipeline diagram pane: watch a DOT file, render it when it changes
//! (one render at a time, a change during a render queued), and show the
//! outcome.
//!
//! Running `dot` and decoding the image is done by the program; the pane
//! decides when to start a render and what to show.

use vstd::prelude::*;
use crate::text::{owned, texts};
use crate::vars::FileProbe;

verus! {

/// Where the last render stands.
pub enum RenderStatus {
    Idle,
    Rendering,
    Done,
    Failed(String),
}

/// A report from the renderer.
pub enum RenderMsg {
    Rendering,
    Done,
    Failed(String),
    Idle,
    /// The renderer went away.
    Disconnected,
}

/// The result of looking at the watched file.
#[derive(Debug, Clone, Copy, PartialEq, Eq, Structural)]
pub enum FileCheck {
    /// Too soon after the last look (at most one look per 300 ms).
    Skipped,
    /// Nothing new.
    Unchanged,
    /// The file went away.
    Gone,
    /// The file changed: read it and hand it to [`DiagramPane::on_source_changed`].
    Changed,
}

/// A render to start: run `command args path`.
pub struct RenderJob {
    pub path: String,
    pub command: String,
    pub args: Vec<String>,
}

/// The diagram pane's state.
pub struct DiagramPane {
    watch_path: String,
    last_modified: Option<u128>,
    last_check_time: u64,
    render_state: RenderStatus,
    render_in_progress: bool,
    pending_render: bool,
    awaiting: bool,
    dot_command: String,
    dot_args: Vec<String>,
    source_text: String,
    has_image: bool,
}

/// The mathematical form of a render status.
pub enum StatusView {
    Idle,
    Rendering,
    Done,
    Failed(Seq<char>),
}

/// The mathematical form of the diagram pane.
pub struct DiagramView {
    pub watch_path: Seq<char>,
    pub last_modified: Option<u128>,
    pub last_check_time: u64,
    pub render_state: StatusView,
    pub render_in_progress: bool,
    pub pending_render: bool,
    /// A renderer's reports are awaited.
    pub awaiting: bool,
    pub dot_command: Seq<char>,
    pub dot_args: Seq<Seq<char>>,
    pub source_text: Seq<char>,
    pub has_image: bool,
}

/// The view of a render status.
pub open spec fn status_view(s: RenderStatus) -> StatusView {
    match s {
        RenderStatus::Idle => StatusView::Idle,
        RenderStatus::Rendering => StatusView::Rendering,
        RenderStatus::Done => StatusView::Done,
        RenderStatus::Failed(m) => StatusView::Failed(m@),
    }
}

impl View for DiagramPane {
    type V = DiagramView;

    closed spec fn view(&self) -> DiagramView {
        DiagramView {
            watch_path: self.watch_path@,
            last_modified: self.last_modified,
            last_check_time: self.last_check_time,
            render_state: status_view(self.render_state),
            render_in_progress: self.render_in_progress,
            pending_render: self.pending_render,
            awaiting: self.awaiting,
            dot_command: self.dot_command@,
            dot_args: texts(self.dot_args@),
            source_text: self.source_text@,
            has_image: self.has_image,
        }
    }
}

/// The pane after a finished render (done or failed): no render runs, and a
/// change queued meanwhile makes the file count as unseen.
pub open spec fn after_render(d: DiagramView, st: StatusView, image: bool) -> DiagramView {
    DiagramView {
        render_state: st,
        render_in_progress: false,
        awaiting: false,
        has_image: image,
        pending_render: false,
        last_modified: if d.pending_render { None } else { d.last_modified },
        ..d
    }
}

/// The pane after a report from the renderer.
pub open spec fn receive_step(d: DiagramView, msg: RenderMsg) -> DiagramView {
    if !d.awaiting {
        d
    } else {
        match msg {
            RenderMsg::Done => after_render(d, StatusView::Done, true),
            RenderMsg::Failed(m) => after_render(d, StatusView::Failed(m@), d.has_image),
            RenderMsg::Rendering => DiagramView { render_state: StatusView::Rendering, ..d },
            RenderMsg::Idle => d,
            RenderMsg::Disconnected => DiagramView {
                render_state: if d.render_state is Rendering {
                    StatusView::Failed("Render process disconnected"@)
                } else {
                    d.render_state
                },
                render_in_progress: false,
                awaiting: false,
                ..d
            },
        }
    }
}

/// A look at the watched file at time `now` (at most one per 300 ms): the
/// pane after it and what was found.
pub open spec fn check_step(d: DiagramView, now: u64, probe: FileProbe) -> (DiagramView, FileCheck) {
    if !(now >= d.last_check_time && now - d.last_check_time >= 300) {
        (d, FileCheck::Skipped)
    } else {
        let d1 = DiagramView { last_check_time: now, ..d };
        match probe {
            FileProbe::Missing => if d1.last_modified is Some {
                (
                    DiagramView {
                        last_modified: None,
                        source_text: Seq::empty(),
                        render_state: StatusView::Idle,
                        has_image: false,
                        ..d1
                    },
                    FileCheck::Gone,
                )
            } else {
                (d1, FileCheck::Gone)
            },
            FileProbe::Unstamped => (d1, FileCheck::Unchanged),
            FileProbe::Stamped(t) => if d1.last_modified == Some(t) {
                (d1, FileCheck::Unchanged)
            } else {
                (DiagramView { last_modified: Some(t), ..d1 }, FileCheck::Changed)
            },
        }
    }
}

/// Taking changed source: the pane after it and whether a render starts.
/// While a render runs the change is queued; otherwise a render starts.
pub open spec fn source_step(d: DiagramView, source: Seq<char>) -> (DiagramView, bool) {
    if d.render_in_progress {
        (DiagramView { source_text: source, has_image: false, pending_render: true, ..d }, false)
    } else {
        (
            DiagramView { source_text: source, has_image: false, render_in_progress: true, awaiting: true, ..d },
            true,
        )
    }
}

/// What the pane says while it shows no image.
#[derive(Debug, Clone, Copy, PartialEq, Eq, Structural)]
pub enum DiagramNote {
    /// No diagram yet: where the pipeline is expected.
    Waiting,
    /// The source was read but not rendered: the source text.
    Source,
    /// A render runs.
    Rendering,
    /// The render is done and its image is being prepared.
    Processing,
    /// The render failed: its message.
    Failed,
}

/// The note for a state of the pane.
pub open spec fn note_of(d: DiagramView) -> DiagramNote {
    match d.render_state {
        StatusView::Idle => if d.source_text.len() == 0 { DiagramNote::Waiting } else { DiagramNote::Source },
        StatusView::Rendering => DiagramNote::Rendering,
        StatusView::Done => DiagramNote::Processing,
        StatusView::Failed(_) => DiagramNote::Failed,
    }
}

impl DiagramPane {
    /// A pane watching `watch_path`, rendering with `dot_command dot_args`;
    /// `now` is the time in milliseconds.
    pub fn new(watch_path: String, dot_command: String, dot_args: Vec<String>, now: u64) -> (r: Self)
        ensures
            r@.watch_path == watch_path@,
            r@.dot_command == dot_command@,
            r@.dot_args == texts(dot_args@),
            r@.last_modified is None,
            r@.last_check_time == now,
            r@.render_state is Idle,
            !r@.render_in_progress,
            !r@.pending_render,
            !r@.awaiting,
            r@.source_text.len() == 0,
            !r@.has_image,
    {
        DiagramPane {
            watch_path,
            last_modified: None,
            last_check_time: now,
            render_state: RenderStatus::Idle,
            render_in_progress: false,
            pending_render: false,
            awaiting: false,
            dot_command,
            dot_args,
            source_text: String::new(),
            has_image: false,
        }
    }

    /// Whether a renderer's reports are awaited.
    pub fn awaiting(&self) -> (r: bool)
        ensures
            r == self@.awaiting,
    {
        self.awaiting
    }

    /// The file watched.
    pub fn watch_path(&self) -> (r: &str)
        ensures
            r@ == self@.watch_path,
    {
        self.watch_path.as_str()
    }

    /// The DOT source last read.
    pub fn source_text(&self) -> (r: &str)
        ensures
            r@ == self@.source_text,
    {
        self.source_text.as_str()
    }

    /// Whether a rendered image is ready to draw.
    pub fn has_image(&self) -> (r: bool)
        ensures
            r == self@.has_image,
    {
        self.has_image
    }

    /// The state of the last render.
    pub fn render_state(&self) -> (r: &RenderStatus)
        ensures
            status_view(*r) == self@.render_state,
    {
        &self.render_state
    }

    /// What the pane says while it shows no image (see [`note_of`]).
    pub fn note(&self) -> (r: DiagramNote)
        ensures
            r == note_of(self@),
    {
        match &self.render_state {
            RenderStatus::Idle => if self.source_text.as_str().unicode_len() == 0 {
                DiagramNote::Waiting
            } else {
                DiagramNote::Source
            },
            RenderStatus::Rendering => DiagramNote::Rendering,
            RenderStatus::Done => DiagramNote::Processing,
            RenderStatus::Failed(_) => DiagramNote::Failed,
        }
    }

    /// Takes a report from the renderer (ignored when none is awaited).
    pub fn receive(&mut self, msg: RenderMsg)
        ensures
            final(self)@ == receive_step(old(self)@, msg),
    {
        if !self.awaiting {
            return;
        }
        match msg {
            RenderMsg::Done => {
                self.render_state = RenderStatus::Done;
                self.render_in_progress = false;
                self.has_image = true;
                self.awaiting = false;
                if self.pending_render {
                    self.pending_render = false;
                    self.last_modified = None;
                }
            },
            RenderMsg::Failed(m) => {
                self.render_state = RenderStatus::Failed(m);
                self.render_in_progress = false;
                self.awaiting = false;
                if self.pending_render {
                    self.pending_render = false;
                    self.last_modified = None;
                }
            },
            RenderMsg::Rendering => {
                self.render_state = RenderStatus::Rendering;
            },
            RenderMsg::Idle => {},
            RenderMsg::Disconnected => {
                if let RenderStatus::Rendering = self.render_state {
                    self.render_state = RenderStatus::Failed(owned("Render process disconnected"));
                }
                self.render_in_progress = false;
                self.awaiting = false;
            },
        }
    }

    /// Looks at the watched file, at most once per 300 ms. A new
    /// modification stamp means a change; a file gone after having been
    /// seen clears the source, the status and the image.
    pub fn check_file(&mut self, now: u64, probe: FileProbe) -> (r: FileCheck)
        ensures
            (final(self)@, r) == check_step(old(self)@, now, probe),
            !(now >= old(self)@.last_check_time && now - old(self)@.last_check_time >= 300) ==> r
                == FileCheck::Skipped && final(self)@ == old(self)@,
            now >= old(self)@.last_check_time && now - old(self)@.last_check_time >= 300 ==> {
                let d = DiagramView { last_check_time: now, ..old(self)@ };
                match probe {
                    FileProbe::Missing => r == FileCheck::Gone && if d.last_modified is Some {
                        final(self)@ == (DiagramView {
                            last_modified: None,
                            source_text: Seq::empty(),
                            render_state: StatusView::Idle,
                            has_image: false,
                            ..d
                        })
                    } else {
                        final(self)@ == d
                    },
                    FileProbe::Unstamped => r == FileCheck::Unchanged && final(self)@ == d,
                    FileProbe::Stamped(t) => if d.last_modified == Some(t) {
                        r == FileCheck::Unchanged && final(self)@ == d
                    } else {
                        r == FileCheck::Changed && final(self)@ == (DiagramView { last_modified: Some(t), ..d })
                    },
                }
            },
    {
        if now < self.last_check_time || now - self.last_check_time < 300 {
            return FileCheck::Skipped;
        }
        self.last_check_time = now;
        match probe {
            FileProbe::Missing => {
                if self.last_modified.is_some() {
                    self.last_modified = None;
                    self.source_text = String::new();
                    self.render_state = RenderStatus::Idle;
                    self.has_image = false;
                }
                FileCheck::Gone
            },
            FileProbe::Unstamped => FileCheck::Unchanged,
            FileProbe::Stamped(t) => {
                if self.last_modified == Some(t) {
                    FileCheck::Unchanged
                } else {
                    self.last_modified = Some(t);
                    FileCheck::Changed
                }
            },
        }
    }

    /// Takes the changed source. While a render runs the change is queued;
    /// otherwise a render of the watched file is started.
    pub fn on_source_changed(&mut self, source: String) -> (r: Option<RenderJob>)
        ensures
            final(self)@ == source_step(old(self)@, source@).0,
            r is Some == source_step(old(self)@, source@).1,
            old(self)@.render_in_progress ==> r is None && final(self)@ == (DiagramView {
                source_text: source@,
                has_image: false,
                pending_render: true,
                ..old(self)@
            }),
            !old(self)@.render_in_progress ==> (r matches Some(j) && j.path@ == old(self)@.watch_path
                && j.command@ == old(self)@.dot_command && texts(j.args@) == old(self)@.dot_args
                && final(self)@ == (DiagramView {
                source_text: source@,
                has_image: false,
                render_in_progress: true,
                awaiting: true,
                ..old(self)@
            })),
    {
        self.source_text = source;
        self.has_image = false;
        if self.render_in_progress {
            self.pending_render = true;
            return None;
        }
        self.render_in_progress = true;
        self.awaiting = true;
        Some(RenderJob {
            path: self.watch_path.clone(),
            command: self.dot_command.clone(),
            args: copy_strings(&self.dot_args),
        })
    }

    /// `r` asks for a fresh render: the file counts as unseen, so the next
    /// look at it (which the caller makes right away) finds it changed.
    /// Tells whether the key was `r`.
    pub fn write_input(&mut self, bytes: &[u8]) -> (r: bool)
        ensures
            r == (bytes@ == seq![0x72u8]),
            r ==> final(self)@ == (DiagramView { last_modified: None, ..old(self)@ }),
            !r ==> final(self)@ == old(self)@,
    {
        proof {
            if bytes@.len() == 1 {
                assert(bytes@ =~= seq![bytes@[0]]);
            }
        }
        if bytes.len() == 1 && bytes[0] == 0x72 {
            self.last_modified = None;
            true
        } else {
            false
        }
    }
}

/// A copy of a list of strings.
fn copy_strings(v: &Vec<String>) -> (r: Vec<String>)
    ensures
        texts(r@) == texts(v@),
{
    let mut r: Vec<String> = Vec::new();
    let mut i: usize = 0;
    while i < v.len()
        invariant
            i <= v@.len(),
            texts(r@) == texts(v@).take(i as int),
        decreases v@.len() - i,
    {
        let ghost prev = texts(r@);
        r.push(v[i].clone());
        assert(texts(r@) =~= prev.push(v@[i as int]@));
        assert(texts(v@).take(i + 1) =~= texts(v@).take(i as int).push(v@[i as int]@));
        i = i + 1;
    }
    assert(texts(v@).take(v@.len() as int) =~= texts(v@));
    r
}

} // verus!
