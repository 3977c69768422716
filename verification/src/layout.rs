//! Where the panes go on screen: the four slots, the pane each shows, and
//! the part of the screen each slot takes under the maximize state.

use vstd::prelude::*;
use crate::app::{App, InputMode, MaximizedState, Overlay, kind_from_position_name, parse_position_name};
use crate::pane::{PaneKind, first_of_kind, position_of_kind};

verus! {

/// A part of the main area.
#[derive(Debug, Clone, Copy, PartialEq, Eq, Structural)]
pub enum Region {
    Hidden,
    Whole,
    LeftHalf,
    RightHalf,
    TopHalf,
    BottomHalf,
    TopLeft,
    TopRight,
    BottomLeft,
    BottomRight,
}

/// The kind a slot shows when the settings name none for it:
/// editor, REPL, variables, terminal.
pub open spec fn default_slot_kind(p: int) -> PaneKind {
    if p == 0 {
        PaneKind::Editor
    } else if p == 1 {
        PaneKind::Repl
    } else if p == 2 {
        PaneKind::Variables
    } else {
        PaneKind::Terminal
    }
}

/// The kind of pane each of the four slots shows, from the slot names in
/// the settings; unknown or missing names keep the default.
pub open spec fn slot_kinds_of(positions: Seq<Seq<char>>) -> Seq<PaneKind> {
    Seq::new(
        4,
        |p: int|
            if p < positions.len() {
                match kind_from_position_name(positions[p]) {
                    Some(k) => k,
                    None => default_slot_kind(p),
                }
            } else {
                default_slot_kind(p)
            },
    )
}

/// The pane index each slot shows: the first pane of the slot's kind, or,
/// when there is none, the slot's own number (at most the last pane).
pub open spec fn slot_panes_of(slot_kinds: Seq<PaneKind>, pane_kinds: Seq<PaneKind>) -> Seq<int> {
    Seq::new(
        4,
        |p: int|
            match first_of_kind(pane_kinds, slot_kinds[p]) {
                Some(i) => i,
                None => {
                    let last = if pane_kinds.len() > 0 { pane_kinds.len() - 1 } else { 0 };
                    if p < last { p } else { last }
                },
            },
    )
}

/// The slot that shows the focused pane (the first such), or slot 0.
pub open spec fn focused_slot_of(slot_panes: Seq<int>, focus: int) -> int {
    if slot_panes[0] == focus {
        0
    } else if slot_panes[1] == focus {
        1
    } else if slot_panes[2] == focus {
        2
    } else if slot_panes[3] == focus {
        3
    } else {
        0
    }
}

/// The part of the main area each slot takes.
///
/// Restored: a two by two grid. Full: the focused slot takes it all.
/// Vertical: the focused slot takes its whole column, its column partner
/// is hidden and the other column stays split. Horizontal: the same with
/// rows.
pub open spec fn slot_regions(m: MaximizedState, f: int) -> Seq<Region> {
    match m {
        MaximizedState::Full => Seq::new(4, |p: int| if p == f { Region::Whole } else { Region::Hidden }),
        MaximizedState::Vertical => if f == 0 {
            seq![Region::LeftHalf, Region::TopRight, Region::Hidden, Region::BottomRight]
        } else if f == 2 {
            seq![Region::Hidden, Region::TopRight, Region::LeftHalf, Region::BottomRight]
        } else if f == 1 {
            seq![Region::TopLeft, Region::RightHalf, Region::BottomLeft, Region::Hidden]
        } else {
            seq![Region::TopLeft, Region::Hidden, Region::BottomLeft, Region::RightHalf]
        },
        MaximizedState::Horizontal => if f == 0 {
            seq![Region::TopHalf, Region::Hidden, Region::BottomLeft, Region::BottomRight]
        } else if f == 1 {
            seq![Region::Hidden, Region::TopHalf, Region::BottomLeft, Region::BottomRight]
        } else if f == 2 {
            seq![Region::TopLeft, Region::TopRight, Region::BottomHalf, Region::Hidden]
        } else {
            seq![Region::TopLeft, Region::TopRight, Region::Hidden, Region::BottomHalf]
        },
        MaximizedState::Restored => seq![
            Region::TopLeft,
            Region::TopRight,
            Region::BottomLeft,
            Region::BottomRight,
        ],
    }
}

/// The region of pane `i`: that of the last slot showing it, else hidden.
pub open spec fn pane_region_of(slot_panes: Seq<int>, regions: Seq<Region>, i: int) -> Region {
    if slot_panes[3] == i {
        regions[3]
    } else if slot_panes[2] == i {
        regions[2]
    } else if slot_panes[1] == i {
        regions[1]
    } else if slot_panes[0] == i {
        regions[0]
    } else {
        Region::Hidden
    }
}

/// The regions of all panes for a state of the workspace.
pub open spec fn screen_regions(a: crate::app::AppView) -> Seq<Region> {
    let kinds = slot_kinds_of(crate::text::texts(a.config.layout.positions@));
    let panes = slot_panes_of(kinds, a.pane_kinds);
    let f = focused_slot_of(panes, a.focus as int);
    let regions = slot_regions(a.maximized, f);
    regions_seq(panes, regions, a.pane_kinds.len() as int)
}

/// The regions of the first `n` panes.
pub open spec fn regions_seq(slot_panes: Seq<int>, regions: Seq<Region>, n: int) -> Seq<Region> {
    Seq::new(n as nat, |i: int| pane_region_of(slot_panes, regions, i))
}

/// The regions of the first `n` panes (see [`pane_region_of`]).
fn regions_of_panes(panes: &Vec<usize>, regions: &Vec<Region>, n: usize) -> (r: Vec<Region>)
    requires
        panes@.len() == 4,
        regions@.len() == 4,
    ensures
        r@ == regions_seq(panes@.map_values(|x: usize| x as int), regions@, n as int),
{
    let ghost ps = panes@.map_values(|x: usize| x as int);
    let mut r: Vec<Region> = Vec::new();
    let mut i: usize = 0;
    while i < n
        invariant
            i <= n,
            panes@.len() == 4,
            regions@.len() == 4,
            ps == panes@.map_values(|x: usize| x as int),
            r@.len() == i,
            forall|q: int| 0 <= q < i ==> r@[q] == pane_region_of(ps, regions@, q),
        decreases n - i,
    {
        let reg = if panes[3] == i {
            regions[3]
        } else if panes[2] == i {
            regions[2]
        } else if panes[1] == i {
            regions[1]
        } else if panes[0] == i {
            regions[0]
        } else {
            Region::Hidden
        };
        r.push(reg);
        i = i + 1;
    }
    assert(r@ =~= regions_seq(ps, regions@, n as int));
    r
}

fn default_kind_exec(p: usize) -> (k: PaneKind)
    ensures
        k == default_slot_kind(p as int),
{
    if p == 0 {
        PaneKind::Editor
    } else if p == 1 {
        PaneKind::Repl
    } else if p == 2 {
        PaneKind::Variables
    } else {
        PaneKind::Terminal
    }
}

/// The kind of pane each slot shows (see [`slot_kinds_of`]).
pub fn slot_kinds(positions: &Vec<String>) -> (r: Vec<PaneKind>)
    ensures
        r@ == slot_kinds_of(crate::text::texts(positions@)),
{
    let ghost names = crate::text::texts(positions@);
    let mut r: Vec<PaneKind> = Vec::new();
    let mut p: usize = 0;
    while p < 4
        invariant
            p <= 4,
            names == crate::text::texts(positions@),
            r@.len() == p,
            forall|q: int| 0 <= q < p ==> r@[q] == slot_kinds_of(names)[q],
        decreases 4 - p,
    {
        let k = if p < positions.len() {
            match parse_position_name(positions[p].as_str()) {
                Some(k) => k,
                None => default_kind_exec(p),
            }
        } else {
            default_kind_exec(p)
        };
        r.push(k);
        p = p + 1;
    }
    assert(r@ =~= slot_kinds_of(names));
    r
}

/// The pane index each slot shows (see [`slot_panes_of`]).
pub fn slot_panes(slot_kinds: &Vec<PaneKind>, pane_kinds: &Vec<PaneKind>) -> (r: Vec<usize>)
    requires
        slot_kinds@.len() == 4,
    ensures
        r@.len() == 4,
        forall|p: int| 0 <= p < 4 ==> r@[p] as int == slot_panes_of(slot_kinds@, pane_kinds@)[p],
{
    let mut r: Vec<usize> = Vec::new();
    let mut p: usize = 0;
    while p < 4
        invariant
            p <= 4,
            slot_kinds@.len() == 4,
            r@.len() == p,
            forall|q: int| 0 <= q < p ==> r@[q] as int == slot_panes_of(slot_kinds@, pane_kinds@)[q],
        decreases 4 - p,
    {
        let i = match position_of_kind(pane_kinds, slot_kinds[p]) {
            Some(i) => i,
            None => {
                let last = if pane_kinds.len() > 0 { pane_kinds.len() - 1 } else { 0 };
                if p < last { p } else { last }
            },
        };
        r.push(i);
        p = p + 1;
    }
    r
}

/// The slot that shows the focused pane (see [`focused_slot_of`]).
pub fn focused_slot(slot_panes: &Vec<usize>, focus: usize) -> (r: usize)
    requires
        slot_panes@.len() == 4,
    ensures
        r as int == focused_slot_of(slot_panes@.map_values(|x: usize| x as int), focus as int),
        r < 4,
{
    if slot_panes[0] == focus {
        0
    } else if slot_panes[1] == focus {
        1
    } else if slot_panes[2] == focus {
        2
    } else if slot_panes[3] == focus {
        3
    } else {
        0
    }
}

/// The part of the main area each slot takes (see [`slot_regions`]).
pub fn regions_for(m: MaximizedState, f: usize) -> (r: Vec<Region>)
    requires
        f < 4,
    ensures
        r@ == slot_regions(m, f as int),
{
    let r = match m {
        MaximizedState::Full => {
            let mut v: Vec<Region> = Vec::new();
            let mut p: usize = 0;
            while p < 4
                invariant
                    p <= 4,
                    v@.len() == p,
                    forall|q: int| 0 <= q < p ==> v@[q] == (if q == f { Region::Whole } else { Region::Hidden }),
                decreases 4 - p,
            {
                v.push(if p == f { Region::Whole } else { Region::Hidden });
                p = p + 1;
            }
            v
        },
        MaximizedState::Vertical => if f == 0 {
            vec![Region::LeftHalf, Region::TopRight, Region::Hidden, Region::BottomRight]
        } else if f == 2 {
            vec![Region::Hidden, Region::TopRight, Region::LeftHalf, Region::BottomRight]
        } else if f == 1 {
            vec![Region::TopLeft, Region::RightHalf, Region::BottomLeft, Region::Hidden]
        } else {
            vec![Region::TopLeft, Region::Hidden, Region::BottomLeft, Region::RightHalf]
        },
        MaximizedState::Horizontal => if f == 0 {
            vec![Region::TopHalf, Region::Hidden, Region::BottomLeft, Region::BottomRight]
        } else if f == 1 {
            vec![Region::Hidden, Region::TopHalf, Region::BottomLeft, Region::BottomRight]
        } else if f == 2 {
            vec![Region::TopLeft, Region::TopRight, Region::BottomHalf, Region::Hidden]
        } else {
            vec![Region::TopLeft, Region::TopRight, Region::Hidden, Region::BottomHalf]
        },
        MaximizedState::Restored => vec![
            Region::TopLeft,
            Region::TopRight,
            Region::BottomLeft,
            Region::BottomRight,
        ],
    };
    assert(r@ =~= slot_regions(m, f as int));
    r
}

impl App {
    /// The region of every pane on screen (see [`screen_regions`]).
    #[verifier::rlimit(30)]
    pub fn pane_regions(&self) -> (r: Vec<Region>)
        ensures
            r@ == screen_regions(self@),
    {
        let kinds = slot_kinds(&self.config.layout.positions);
        let panes = slot_panes(&kinds, &self.pane_kinds);
        let ghost ps = slot_panes_of(kinds@, self.pane_kinds@);
        assert(panes@.map_values(|x: usize| x as int) =~= ps);
        let f = focused_slot(&panes, self.focus);
        assert(f as int == focused_slot_of(ps, self.focus as int));
        let regions = regions_for(self.maximized, f);
        regions_of_panes(&panes, &regions, self.pane_kinds.len())
    }

    /// Whether the focused pane, when it sits outside the slots, is drawn
    /// over the whole main area (it is maximized fully).
    pub fn floats_focused(&self) -> (r: bool)
        ensures
            r == (self.focus >= 4 && self.maximized == MaximizedState::Full),
    {
        self.focus >= 4 && self.maximized == MaximizedState::Full
    }

    /// The mode shown in the status bar.
    pub fn mode_label(&self) -> (r: &'static str)
        ensures
            r@ == (if self.overlay is Some {
                "OVERLAY"@
            } else if self.mode == InputMode::Normal {
                "NORMAL"@
            } else {
                "NAV"@
            }),
    {
        if self.overlay.is_some() {
            "OVERLAY"
        } else {
            match self.mode {
                InputMode::Normal => "NORMAL",
                InputMode::Navigation => "NAV",
            }
        }
    }

    /// The height of the status bar: three lines of hints in navigation
    /// mode without an overlay, one line otherwise.
    pub fn status_height(&self) -> (r: u16)
        ensures
            r == (if self.mode == InputMode::Navigation && self.overlay is None { 3u16 } else { 1u16 }),
    {
        if self.mode == InputMode::Navigation && self.overlay.is_none() {
            3
        } else {
            1
        }
    }
}

/// The margin and the size of a centered box taking `percent` of `total`
/// cells: the box is `total * percent / 100` long, with
/// `total * (100 - percent) / 200` before it.
pub fn centered_span(total: u16, percent: u16) -> (r: (u16, u16))
    requires
        percent <= 100,
    ensures
        r.0 as int == total as int * (100 - percent as int) / 200,
        r.1 as int == total as int * percent as int / 100,
{
    let t = total as u32;
    let p = percent as u32;
    assert(t * (100 - p) <= 65535 * 100) by (nonlinear_arith)
        requires t <= 65535, p <= 100;
    assert(t * p <= 65535 * 100) by (nonlinear_arith)
        requires t <= 65535, p <= 100;
    let margin = t * (100 - p) / 200;
    let size = t * p / 100;
    assert(margin <= 65535) by (nonlinear_arith)
        requires margin == t * (100 - p) / 200, t * (100 - p) <= 65535 * 100;
    assert(size <= 65535) by (nonlinear_arith)
        requires size == t * p / 100, t * p <= 65535 * 100;
    (margin as u16, size as u16)
}


/// The texts of key hints: (key, what it does).
pub open spec fn hints_view(v: Seq<(&str, &str)>) -> Seq<(Seq<char>, Seq<char>)> {
    v.map_values(|h: (&str, &str)| (h.0@, h.1@))
}

/// The key hints of the status bar's first line for an overlay or a mode.
pub open spec fn status_hints_of(overlay: Option<Overlay>, mode: InputMode) -> Seq<(Seq<char>, Seq<char>)> {
    match overlay {
        Some(Overlay::FileTree) => seq![("▲▼"@, " Navigate  "@), ("Enter"@, " Open  "@), ("Esc/q"@, " Close"@)],
        Some(Overlay::BufferList) => seq![("Esc/q/Space"@, " Close"@)],
        Some(Overlay::Help) => seq![("Esc/q/Space"@, " Close"@)],
        Some(Overlay::QuitConfirm) => seq![(""@, "Really quit?  "@), ("y"@, " Yes  "@), ("n/Esc"@, " No"@)],
        Some(Overlay::ProjectSwitcher) => seq![("▲▼"@, " Navigate  "@), ("Enter"@, " Switch project  "@), ("Esc/q"@, " Close"@)],
        None => if mode == InputMode::Normal { seq![("Alt-Space"@, " Nav Mode  "@), ("Ctrl-d"@, " Quit  "@), ("Ctrl-c"@, " Interrupt"@)] } else { seq![("1-4"@, " Focus  "@), ("5/t"@, " Transcript  "@), ("e"@, " Clipboard  "@), ("r"@, " Region  "@), ("l"@, " Assistant  "@), ("f"@, " Tree  "@), ("b"@, " Buffers  "@), ("p"@, " Projects  "@), ("?"@, " Help"@)] },
    }
}

/// The key hints of the status bar's second line: navigation mode only.
pub open spec fn status_more_hints_of(overlay: Option<Overlay>, mode: InputMode) -> Seq<(Seq<char>, Seq<char>)> {
    if overlay is None && mode == InputMode::Navigation { seq![("m"@, " Max Full  "@), ("v"@, " Max Vert  "@), ("h"@, " Max Horiz  "@), ("="@, " Restore  "@), ("j/k"@, " Transcript  "@), ("c"@, " Plot  "@), ("d"@, " Diagram  "@), ("Esc"@, " Normal  "@), ("q"@, " Quit"@)] } else { Seq::empty() }
}

impl App {
    /// The key hints of the status bar's first line (see [`status_hints_of`]).
    pub fn status_hints(&self) -> (r: Vec<(&'static str, &'static str)>)
        ensures
            hints_view(r@) == status_hints_of(self.overlay, self.mode),
    {
        let r = match self.overlay {
            Some(Overlay::FileTree) => vec![("▲▼", " Navigate  "), ("Enter", " Open  "), ("Esc/q", " Close")],
            Some(Overlay::BufferList) => vec![("Esc/q/Space", " Close")],
            Some(Overlay::Help) => vec![("Esc/q/Space", " Close")],
            Some(Overlay::QuitConfirm) => vec![("", "Really quit?  "), ("y", " Yes  "), ("n/Esc", " No")],
            Some(Overlay::ProjectSwitcher) => vec![("▲▼", " Navigate  "), ("Enter", " Switch project  "), ("Esc/q", " Close")],
            None => match self.mode {
                InputMode::Normal => vec![("Alt-Space", " Nav Mode  "), ("Ctrl-d", " Quit  "), ("Ctrl-c", " Interrupt")],
                InputMode::Navigation => vec![("1-4", " Focus  "), ("5/t", " Transcript  "), ("e", " Clipboard  "), ("r", " Region  "), ("l", " Assistant  "), ("f", " Tree  "), ("b", " Buffers  "), ("p", " Projects  "), ("?", " Help")],
            },
        };
        assert(hints_view(r@) =~= status_hints_of(self.overlay, self.mode));
        r
    }

    /// The key hints of the status bar's second line (see [`status_more_hints_of`]).
    pub fn status_more_hints(&self) -> (r: Vec<(&'static str, &'static str)>)
        ensures
            hints_view(r@) == status_more_hints_of(self.overlay, self.mode),
    {
        let r: Vec<(&'static str, &'static str)> = if self.overlay.is_none() && self.mode == InputMode::Navigation {
            vec![("m", " Max Full  "), ("v", " Max Vert  "), ("h", " Max Horiz  "), ("=", " Restore  "), ("j/k", " Transcript  "), ("c", " Plot  "), ("d", " Diagram  "), ("Esc", " Normal  "), ("q", " Quit")]
        } else {
            Vec::new()
        };
        assert(hints_view(r@) =~= status_more_hints_of(self.overlay, self.mode));
        r
    }
}

} // verus!
