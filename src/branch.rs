use vstd::prelude::*;
use crate::message::{ChatMessage, MessageView};

verus! {

/// One logical turn: every version it has had (the first one, edits and
/// regenerations), each with the time it was added, and the version now
/// selected. Versions are only ever appended.
#[derive(Debug)]
pub struct BranchNode {
    list: Vec<(ChatMessage, i64)>,
    selected: usize,
}

pub ghost struct BranchView {
    pub versions: Seq<(MessageView, i64)>,
    pub selected: int,
}

/// The selected version lies in the list.
pub open spec fn branch_wf(b: BranchView) -> bool {
    0 <= b.selected < b.versions.len()
}

/// The selected message of a well-formed branch.
pub open spec fn selected_of(b: BranchView) -> MessageView {
    b.versions[b.selected].0
}

/// Appending a version selects it.
pub open spec fn push_version(b: BranchView, v: (MessageView, i64)) -> BranchView {
    BranchView { versions: b.versions.push(v), selected: b.versions.len() as int }
}

/// Appending each of `vs` in turn.
pub open spec fn push_versions(b: BranchView, vs: Seq<(MessageView, i64)>) -> BranchView
    decreases vs.len(),
{
    if vs.len() == 0 {
        b
    } else {
        push_version(push_versions(b, vs.drop_last()), vs.last())
    }
}

pub open spec fn versions_view(l: Seq<(ChatMessage, i64)>) -> Seq<(MessageView, i64)> {
    l.map_values(|p: (ChatMessage, i64)| (p.0@, p.1))
}

impl View for BranchNode {
    type V = BranchView;

    closed spec fn view(&self) -> BranchView {
        BranchView { versions: versions_view(self.list@), selected: self.selected as int }
    }
}

/// Any sequence of pushes on a well-formed branch leaves it well-formed,
/// with one more version per push and the last one pushed selected.
pub proof fn lemma_pushes_keep_selection_valid(b: BranchView, vs: Seq<(MessageView, i64)>)
    requires
        branch_wf(b),
    ensures
        branch_wf(push_versions(b, vs)),
        push_versions(b, vs).versions.len() == b.versions.len() + vs.len(),
        vs.len() > 0 ==> push_versions(b, vs).selected == b.versions.len() + vs.len() - 1,
    decreases vs.len(),
{
    if vs.len() > 0 {
        lemma_pushes_keep_selection_valid(b, vs.drop_last());
    }
}

impl BranchNode {
    pub open spec fn wf(&self) -> bool {
        branch_wf(self@)
    }

    /// A branch with `message`, added at `at`, as its only version.
    pub fn new(message: ChatMessage, at: i64) -> (r: Self)
        ensures
            r.wf(),
            r@.versions == seq![(message@, at)],
            r@.selected == 0,
    {
        let r = BranchNode { list: vec![(message, at)], selected: 0 };
        assert(r@.versions =~= seq![(message@, at)]);
        r
    }

    /// How many versions the turn has.
    pub fn len(&self) -> (r: usize)
        ensures
            r == self@.versions.len(),
    {
        self.list.len()
    }

    /// Index of the selected version.
    pub fn selected_index(&self) -> (r: usize)
        ensures
            r == self@.selected,
    {
        self.selected
    }

    /// Appends a version (an edit or a regeneration) and selects it.
    pub fn push(&mut self, message: ChatMessage, at: i64)
        requires
            old(self).wf(),
            old(self)@.versions.len() < usize::MAX,
        ensures
            final(self).wf(),
            final(self)@ == push_version(old(self)@, (message@, at)),
    {
        let ghost m = message@;
        self.list.push((message, at));
        self.selected = self.list.len() - 1;
        assert(self@.versions =~= old(self)@.versions.push((m, at)));
    }

    /// Whether an older version exists to go back to.
    pub fn has_previous(&self) -> (r: bool)
        ensures
            r == (self@.selected > 0),
    {
        self.selected > 0
    }

    /// Whether a newer version exists to go forward to.
    pub fn has_next(&self) -> (r: bool)
        requires
            self.wf(),
        ensures
            r == (self@.selected + 1 < self@.versions.len()),
    {
        assert(self@.versions.len() == self.list@.len());
        self.selected < self.list.len() - 1
    }

    /// Selects the version before the selected one.
    pub fn select_previous(&mut self)
        requires
            old(self).wf(),
            old(self)@.selected > 0,
        ensures
            final(self).wf(),
            final(self)@.versions == old(self)@.versions,
            final(self)@.selected == old(self)@.selected - 1,
    {
        self.selected = self.selected - 1;
    }

    /// Selects the version after the selected one.
    pub fn select_next(&mut self)
        requires
            old(self).wf(),
            old(self)@.selected + 1 < old(self)@.versions.len(),
        ensures
            final(self).wf(),
            final(self)@.versions == old(self)@.versions,
            final(self)@.selected == old(self)@.selected + 1,
    {
        let n = self.list.len();
        assert(self@.versions.len() == n);
        self.selected = self.selected + 1;
    }

    /// The selected version.
    pub fn selected(&self) -> (r: &ChatMessage)
        requires
            self.wf(),
        ensures
            r@ == selected_of(self@),
    {
        &self.list[self.selected].0
    }

    /// Marks the selected version as an eviction boundary, or clears the mark.
    pub fn set_selected_freewill(&mut self, freewill: bool)
        requires
            old(self).wf(),
        ensures
            final(self).wf(),
            final(self)@.selected == old(self)@.selected,
            final(self)@.versions == old(self)@.versions.update(
                old(self)@.selected,
                (
                    MessageView { freewill, ..selected_of(old(self)@) },
                    old(self)@.versions[old(self)@.selected].1,
                ),
            ),
    {
        let i = self.selected;
        let (mut m, at) = self.list.remove(i);
        m.freewill = freewill;
        self.list.insert(i, (m, at));
        assert(self@.versions =~= old(self)@.versions.update(
            old(self)@.selected,
            (
                MessageView { freewill, ..selected_of(old(self)@) },
                old(self)@.versions[old(self)@.selected].1,
            ),
        ));
    }

    /// A copy with the same view.
    pub fn duplicate(&self) -> (r: Self)
        ensures
            r@ == self@,
    {
        let mut list: Vec<(ChatMessage, i64)> = Vec::new();
        let mut i: usize = 0;
        while i < self.list.len()
            invariant
                i <= self.list@.len(),
                list@.len() == i,
                forall|j: int|
                    0 <= j < i ==> list@[j].0@ == self.list@[j].0@ && list@[j].1 == self.list@[j].1,
            decreases self.list@.len() - i,
        {
            let m = self.list[i].0.duplicate();
            list.push((m, self.list[i].1));
            i = i + 1;
        }
        let r = BranchNode { list, selected: self.selected };
        assert(r@.versions =~= self@.versions);
        r
    }

    /// A branch from stored versions and a selection; `None` when the
    /// selection lies outside the list.
    pub fn from_versions(list: Vec<(ChatMessage, i64)>, selected: usize) -> (r: Option<Self>)
        ensures
            selected < list@.len() <==> r is Some,
            r matches Some(b) ==> b.wf() && b@ == (BranchView {
                versions: versions_view(list@),
                selected: selected as int,
            }),
    {
        if selected < list.len() {
            Some(BranchNode { list, selected })
        } else {
            None
        }
    }

    /// The versions and the selection, for storage.
    pub fn into_versions(self) -> (r: (Vec<(ChatMessage, i64)>, usize))
        ensures
            versions_view(r.0@) == self@.versions,
            r.1 == self@.selected,
    {
        (self.list, self.selected)
    }
}

} // verus!
