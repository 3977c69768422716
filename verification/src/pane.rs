//! The kinds of panes the workspace shows.

use vstd::prelude::*;

verus! {

/// What a pane hosts; panes are found again by their kind.
#[derive(Debug, Clone, Copy, PartialEq, Eq, Structural)]
pub enum PaneKind {
    Editor,
    Repl,
    Variables,
    Terminal,
    Diagram,
    Plot,
    Llm,
    Transcript,
}

/// A pane whose program could not be started: it stands in the pane's
/// place and shows why.
pub struct ErrorPane {
    pub kind: PaneKind,
    pub name: String,
    pub error: String,
}

/// The first index whose kind is `kind`, if any.
pub open spec fn first_of_kind(kinds: Seq<PaneKind>, kind: PaneKind) -> Option<int>
    decreases kinds.len(),
{
    if kinds.len() == 0 {
        None
    } else if kinds[0] == kind {
        Some(0)
    } else {
        match first_of_kind(kinds.drop_first(), kind) {
            Some(i) => Some(i + 1),
            None => None,
        }
    }
}

/// What [`first_of_kind`] finds is the first pane of that kind.
pub proof fn lemma_first_of_kind(kinds: Seq<PaneKind>, kind: PaneKind)
    ensures
        match first_of_kind(kinds, kind) {
            Some(i) => 0 <= i < kinds.len() && kinds[i] == kind && forall|j: int| 0 <= j < i ==> kinds[j] != kind,
            None => forall|j: int| 0 <= j < kinds.len() ==> kinds[j] != kind,
        },
    decreases kinds.len(),
{
    if kinds.len() > 0 && kinds[0] != kind {
        lemma_first_of_kind(kinds.drop_first(), kind);
        assert forall|j: int| 1 <= j < kinds.len() implies kinds[j] == kinds.drop_first()[j - 1] by {}
    }
}

/// The position of the first pane of the given kind (`Iterator::position`).
pub fn position_of_kind(kinds: &Vec<PaneKind>, kind: PaneKind) -> (r: Option<usize>)
    ensures
        match r {
            Some(i) => i < kinds@.len() && kinds@[i as int] == kind && forall|j: int|
                0 <= j < i ==> kinds@[j] != kind,
            None => forall|j: int| 0 <= j < kinds@.len() ==> kinds@[j] != kind,
        },
        r matches Some(i) ==> first_of_kind(kinds@, kind) == Some(i as int),
        r is None ==> first_of_kind(kinds@, kind) is None,
{
    let mut i: usize = 0;
    assert(kinds@.skip(0) =~= kinds@);
    while i < kinds.len()
        invariant
            i <= kinds@.len(),
            forall|j: int| 0 <= j < i ==> kinds@[j] != kind,
            first_of_kind(kinds@, kind) == (match first_of_kind(kinds@.skip(i as int), kind) {
                Some(k) => Some(k + i),
                None => None,
            }),
        decreases kinds@.len() - i,
    {
        assert(kinds@.skip(i as int)[0] == kinds@[i as int]);
        if kinds[i] == kind {
            return Some(i);
        }
        assert(kinds@.skip(i as int).drop_first() =~= kinds@.skip(i + 1));
        i = i + 1;
    }
    assert(kinds@.skip(i as int).len() == 0);
    None
}

} // verus!
