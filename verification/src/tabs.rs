//! A pane slot that holds several panes as tabs, one of them active.
//!
//! The panes themselves belong to the program; here are their names and
//! kinds, the active tab and the slot's title.

use vstd::prelude::*;
use crate::pane::{PaneKind, first_of_kind, position_of_kind};
use crate::text::{owned, texts};

verus! {

/// The tabs of a slot: the children's names and kinds and the active one.
pub struct TabContainer {
    names: Vec<String>,
    kinds: Vec<PaneKind>,
    active: usize,
    name: String,
    kind: PaneKind,
}

/// The mathematical form of a tab container.
pub struct TabsView {
    pub names: Seq<Seq<char>>,
    pub kinds: Seq<PaneKind>,
    pub active: usize,
    pub name: Seq<char>,
    pub kind: PaneKind,
}

/// The names joined with ` | `.
pub open spec fn joined(names: Seq<Seq<char>>) -> Seq<char>
    decreases names.len(),
{
    if names.len() == 0 {
        Seq::empty()
    } else if names.len() == 1 {
        names[0]
    } else {
        joined(names.drop_last()) + " | "@ + names.last()
    }
}

/// The slot's title: the active tab's name, then all names in brackets.
pub open spec fn title(names: Seq<Seq<char>>, active: int) -> Seq<char> {
    if 0 <= active < names.len() {
        names[active] + " ["@ + joined(names) + "]"@
    } else {
        joined(names)
    }
}

impl View for TabContainer {
    type V = TabsView;

    closed spec fn view(&self) -> TabsView {
        TabsView {
            names: texts(self.names@),
            kinds: self.kinds@,
            active: self.active,
            name: self.name@,
            kind: self.kind,
        }
    }
}

/// Joins names with ` | `.
fn join_names(names: &Vec<String>) -> (r: String)
    ensures
        r@ == joined(texts(names@)),
{
    let ghost ns = texts(names@);
    let mut r = String::new();
    let mut i: usize = 0;
    assert(ns.take(0) =~= Seq::<Seq<char>>::empty());
    while i < names.len()
        invariant
            i <= names@.len(),
            ns == texts(names@),
            r@ == joined(ns.take(i as int)),
        decreases names@.len() - i,
    {
        let ghost before = r@;
        assert(ns.take(i + 1).drop_last() =~= ns.take(i as int));
        if i > 0 {
            r.append(" | ");
        }
        r.append(names[i].as_str());
        if i == 0 {
            assert(ns.take(1) =~= seq![ns[0]]);
            assert(r@ =~= joined(ns.take(1)));
        } else {
            assert(r@ =~= before + " | "@ + ns[i as int]);
        }
        i = i + 1;
    }
    assert(ns.take(names@.len() as int) =~= ns);
    r
}

impl TabContainer {
    /// The tabs are consistent: one kind per name, the title matches.
    pub open spec fn wf(&self) -> bool {
        &&& self@.names.len() == self@.kinds.len()
        &&& self@.name == title(self@.names, self@.active as int)
    }

    /// The slot's title for the given names and active tab.
    pub fn build_name(names: &Vec<String>, active: usize) -> (r: String)
        ensures
            r@ == title(texts(names@), active as int),
    {
        let all = join_names(names);
        if active < names.len() {
            let mut r = names[active].clone();
            r.append(" [");
            r.append(all.as_str());
            r.append("]");
            r
        } else {
            all
        }
    }

    /// Tabs for panes with these names and kinds; the first is active.
    pub fn new(names: Vec<String>, kinds: Vec<PaneKind>, kind: PaneKind) -> (r: Self)
        requires
            names@.len() == kinds@.len(),
        ensures
            r.wf(),
            r@.names == texts(names@),
            r@.kinds == kinds@,
            r@.active == 0,
            r@.kind == kind,
    {
        let name = Self::build_name(&names, 0);
        TabContainer { names, kinds, active: 0, name, kind }
    }

    /// The active tab, when there is one.
    pub fn active(&self) -> (r: Option<usize>)
        ensures
            r == (if self@.active < self@.names.len() { Some(self@.active) } else { None }),
    {
        if self.active < self.names.len() {
            Some(self.active)
        } else {
            None
        }
    }

    /// The slot's title.
    pub fn name(&self) -> (r: &str)
        ensures
            r@ == self@.name,
    {
        self.name.as_str()
    }

    /// The kind the slot counts as.
    pub fn kind(&self) -> (r: PaneKind)
        ensures
            r == self@.kind,
    {
        self.kind
    }

    /// Activates the next tab (positive `delta`) or the previous one,
    /// wrapping around; nothing happens without tabs.
    pub fn switch_tab(&mut self, delta: i8)
        requires
            old(self).wf(),
            old(self)@.active < old(self)@.names.len() || old(self)@.names.len() == 0,
        ensures
            final(self).wf(),
            final(self)@.names == old(self)@.names,
            final(self)@.kinds == old(self)@.kinds,
            final(self)@.kind == old(self)@.kind,
            old(self)@.names.len() == 0 ==> final(self)@ == old(self)@,
            old(self)@.names.len() > 0 ==> final(self)@.active == (if delta > 0 {
                (old(self)@.active + 1) % (old(self)@.names.len() as int)
            } else {
                (old(self)@.active + old(self)@.names.len() - 1) % (old(self)@.names.len() as int)
            }),
    {
        let len = self.names.len();
        if len == 0 {
            return;
        }
        self.active = if delta > 0 {
            (self.active + 1) % len
        } else {
            let prev = if self.active == 0 { len - 1 } else { self.active - 1 };
            proof {
                let a = old(self)@.active as int;
                let n = len as int;
                if a == 0 {
                    assert((a + n - 1) % n == n - 1) by (nonlinear_arith)
                        requires a == 0, n > 0;
                } else {
                    assert((a + n - 1) % n == a - 1) by (nonlinear_arith)
                        requires 0 < a < n;
                }
            }
            prev
        };
        self.name = Self::build_name(&self.names, self.active);
    }

    /// Activates the first tab of the given kind; tells whether there was one.
    pub fn switch_to_tab(&mut self, kind: PaneKind) -> (r: bool)
        requires
            old(self).wf(),
        ensures
            final(self).wf(),
            final(self)@.names == old(self)@.names,
            final(self)@.kinds == old(self)@.kinds,
            final(self)@.kind == old(self)@.kind,
            r == first_of_kind(old(self)@.kinds, kind) is Some,
            match first_of_kind(old(self)@.kinds, kind) {
                Some(i) => final(self)@.active == i,
                None => final(self)@ == old(self)@,
            },
    {
        match position_of_kind(&self.kinds, kind) {
            Some(pos) => {
                self.active = pos;
                self.name = Self::build_name(&self.names, self.active);
                true
            },
            None => false,
        }
    }
}

} // verus!
