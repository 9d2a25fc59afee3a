use vstd::prelude::*;
use crate::branch::{branch_wf, BranchNode};

verus! {

/// The second navigation control: regenerate at the newest version, or go
/// to the next one.
#[derive(Clone, Copy, Debug, PartialEq, Eq, Structural)]
pub enum RegenOrNext {
    Regen,
    Next,
}

/// Which navigation controls a rendered reply shows.
#[derive(Clone, Copy, Debug, PartialEq, Eq, Structural)]
pub struct ButtonStates {
    pub prev_disabled: bool,
    pub regen_or_next: RegenOrNext,
}

impl ButtonStates {
    /// The controls for the selected version of `node`: "previous" only when
    /// an older version exists, "next" while a newer one does, else
    /// "regenerate".
    pub fn for_branch(node: &BranchNode) -> (r: Self)
        requires
            branch_wf(node@),
        ensures
            r.prev_disabled == (node@.selected == 0),
            r.regen_or_next == (if node@.selected + 1 < node@.versions.len() {
                RegenOrNext::Next
            } else {
                RegenOrNext::Regen
            }),
    {
        ButtonStates {
            prev_disabled: !node.has_previous(),
            regen_or_next: if node.has_next() {
                RegenOrNext::Next
            } else {
                RegenOrNext::Regen
            },
        }
    }
}

} // verus!
