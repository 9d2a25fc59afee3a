use vstd::prelude::*;
use indexmap::IndexMap;
use crate::branch::{branch_wf, selected_of, BranchNode, BranchView};
use crate::identifier::{IdentifierView, MessageIdentifier, TurnKey};
use crate::message::{ChatMessage, MessageRole, MessageView};

verus! {

#[verifier::external_type_specification]
#[verifier::external_body]
#[verifier::reject_recursive_types(K)]
#[verifier::reject_recursive_types(V)]
#[verifier::reject_recursive_types(S)]
pub struct ExIndexMap<K, V, S>(indexmap::IndexMap<K, V, S>);

/// A turn of the conversation: where it lives and its versions.
#[derive(Debug)]
pub struct Turn {
    pub identifier: MessageIdentifier,
    pub node: BranchNode,
}

pub ghost struct TurnView {
    pub id: IdentifierView,
    pub node: BranchView,
}

impl View for Turn {
    type V = TurnView;

    open spec fn view(&self) -> TurnView {
        TurnView { id: self.identifier@, node: self.node@ }
    }
}

/// The entries of an ordered map of turns, in insertion order.
pub uninterp spec fn turn_entries(m: IndexMap<TurnKey, Turn>) -> Seq<(TurnKey, TurnView)>;

/// Relies on IndexMap::new: an empty map.
#[verifier::external_body]
fn turns_new() -> (r: IndexMap<TurnKey, Turn>)
    ensures
        turn_entries(r) == Seq::<(TurnKey, TurnView)>::empty(),
{
    IndexMap::new()
}

/// Relies on IndexMap::len: the number of entries.
#[verifier::external_body]
fn turns_len(m: &IndexMap<TurnKey, Turn>) -> (r: usize)
    ensures
        r == turn_entries(*m).len(),
{
    m.len()
}

/// Relies on IndexMap::get_index_of: the position of the entry with key `k`.
#[verifier::external_body]
fn turns_index_of(m: &IndexMap<TurnKey, Turn>, k: &TurnKey) -> (r: Option<usize>)
    ensures
        match r {
            Some(i) => i < turn_entries(*m).len() && turn_entries(*m)[i as int].0 == *k,
            None => forall|i: int|
                0 <= i < turn_entries(*m).len() ==> turn_entries(*m)[i].0 != *k,
        },
{
    m.get_index_of(k)
}

/// Relies on IndexMap's `Index<usize>`: the value of the entry at position `i`.
#[verifier::external_body]
fn turns_at(m: &IndexMap<TurnKey, Turn>, i: usize) -> (r: &Turn)
    requires
        i < turn_entries(*m).len(),
    ensures
        r@ == turn_entries(*m)[i as int].1,
{
    &m[i]
}

/// Relies on IndexMap's `IndexMut<usize>`: the value at position `i`, in place.
#[verifier::external_body]
fn turns_at_mut(m: &mut IndexMap<TurnKey, Turn>, i: usize) -> (r: &mut Turn)
    requires
        i < turn_entries(*old(m)).len(),
    ensures
        (*r)@ == turn_entries(*old(m))[i as int].1,
        turn_entries(*final(m)) == turn_entries(*old(m)).update(
            i as int,
            (turn_entries(*old(m))[i as int].0, (*final(r))@),
        ),
{
    &mut m[i]
}

/// Relies on IndexMap::insert: a key not yet present goes last in order.
#[verifier::external_body]
fn turns_insert(m: &mut IndexMap<TurnKey, Turn>, k: TurnKey, v: Turn)
    requires
        forall|i: int| 0 <= i < turn_entries(*old(m)).len() ==> turn_entries(*old(m))[i].0 != k,
    ensures
        turn_entries(*final(m)) == turn_entries(*old(m)).push((k, v@)),
{
    m.insert(k, v);
}

/// Relies on IndexMap::swap_remove_index: the last entry takes the place of
/// the one removed.
#[verifier::external_body]
fn turns_swap_remove_index(m: &mut IndexMap<TurnKey, Turn>, i: usize) -> (r: Option<Turn>)
    requires
        i < turn_entries(*old(m)).len(),
    ensures
        r matches Some(t) && t@ == turn_entries(*old(m))[i as int].1,
        turn_entries(*final(m)) == (if i + 1 == turn_entries(*old(m)).len() {
            turn_entries(*old(m)).drop_last()
        } else {
            turn_entries(*old(m)).drop_last().update(i as int, turn_entries(*old(m)).last())
        }),
{
    m.swap_remove_index(i).map(|(_, t)| t)
}

/// Relies on IndexMap::drain: the first `n` values leave, in order, and the
/// rest shift down.
#[verifier::external_body]
fn turns_drain_front(m: &mut IndexMap<TurnKey, Turn>, n: usize) -> (r: Vec<Turn>)
    requires
        n <= turn_entries(*old(m)).len(),
    ensures
        r@.map_values(|t: Turn| t@) == turn_entries(*old(m)).take(n as int).map_values(
            |e: (TurnKey, TurnView)| e.1,
        ),
        turn_entries(*final(m)) == turn_entries(*old(m)).skip(n as int),
{
    m.drain(..n).map(|(_, t)| t).collect()
}

/// Relies on IndexMap::clear: no entry is left.
#[verifier::external_body]
fn turns_clear(m: &mut IndexMap<TurnKey, Turn>)
    ensures
        turn_entries(*final(m)) == Seq::<(TurnKey, TurnView)>::empty(),
{
    m.clear()
}

/// Why a store operation was refused.
#[derive(Clone, Copy, Debug, PartialEq, Eq, Structural)]
pub enum StoreError {
    /// No turn has the identifier.
    NotFound,
    /// A turn already has the identifier.
    AlreadyExists,
    /// A restored turn selects a version it does not have.
    InvalidSelection,
}

/// The short-term memory: turns in conversation order, each under a
/// distinct identifier.
#[derive(Debug)]
pub struct ConversationStore {
    turns: IndexMap<TurnKey, Turn>,
}

pub open spec fn keys_unique(v: Seq<TurnView>) -> bool {
    forall|i: int, j: int| 0 <= i < j < v.len() ==> v[i].id.key != v[j].id.key
}

pub open spec fn turns_wf(v: Seq<TurnView>) -> bool {
    &&& keys_unique(v)
    &&& forall|i: int| 0 <= i < v.len() ==> branch_wf(#[trigger] v[i].node)
}

/// Some turn has a synthetic identifier.
pub open spec fn has_synthetic(v: Seq<TurnView>) -> bool {
    exists|j: int| 0 <= j < v.len() && (#[trigger] v[j]).id.key.2
}

/// A key taken in `v` that is synthetic shows that `v` has a synthetic turn.
pub proof fn lemma_taken_synthetic(v: Seq<TurnView>, k: TurnKey)
    requires
        k.2,
        index_of_key(v, k) is Some,
    ensures
        has_synthetic(v),
{
    let i = index_of_key(v, k)->0;
    assert(v[i].id.key.2);
}

/// Position of the turn with key `k`, if any.
pub open spec fn index_of_key(v: Seq<TurnView>, k: TurnKey) -> Option<int> {
    if exists|i: int| 0 <= i < v.len() && v[i].id.key == k {
        Some(choose|i: int| 0 <= i < v.len() && v[i].id.key == k)
    } else {
        None
    }
}

/// The selected message of every turn, oldest first.
pub open spec fn selected_messages(v: Seq<TurnView>) -> Seq<MessageView> {
    v.map_values(|t: TurnView| selected_of(t.node))
}

/// The messages after the last one flagged as a boundary, oldest first.
pub open spec fn after_last_boundary(ms: Seq<MessageView>) -> Seq<MessageView>
    decreases ms.len(),
{
    if ms.len() == 0 {
        ms
    } else if ms.last().freewill {
        Seq::empty()
    } else {
        after_last_boundary(ms.drop_last()).push(ms.last())
    }
}

/// Index of the newest turn whose selected message has `role`, if any.
pub open spec fn latest_with_role_index(v: Seq<TurnView>, role: MessageRole) -> Option<int>
    decreases v.len(),
{
    if v.len() == 0 {
        None
    } else if selected_of(v.last().node).role == role {
        Some(v.len() - 1)
    } else {
        latest_with_role_index(v.drop_last(), role)
    }
}


/// Sets the eviction-boundary flag on the selected version.
pub open spec fn mark_boundary(b: BranchView) -> BranchView {
    BranchView {
        versions: b.versions.update(
            b.selected,
            (MessageView { freewill: true, ..selected_of(b) }, b.versions[b.selected].1),
        ),
        selected: b.selected,
    }
}

/// Flags the newest turn's selected version as an eviction boundary.
pub open spec fn mark_latest(v: Seq<TurnView>) -> Seq<TurnView> {
    if v.len() == 0 {
        v
    } else {
        v.update(v.len() - 1, TurnView { node: mark_boundary(v.last().node), ..v.last() })
    }
}

/// How many turns stay after an eviction: `round(retain × max_stm)`, with
/// the retained fraction given in thousandths.
pub open spec fn keep_count(max_stm: nat, retain_permille: nat) -> nat {
    (retain_permille * max_stm + 500) / 1000
}

/// The turns that remain after `drain_overflow`.
pub open spec fn drain_rest(v: Seq<TurnView>, max_stm: nat, retain_permille: nat) -> Seq<TurnView> {
    if v.len() >= max_stm {
        mark_latest(v).skip(v.len() - keep_count(max_stm, retain_permille))
    } else {
        v
    }
}

/// The batch that `drain_overflow` hands to long-term memory: of the evicted
/// turns, those after the last boundary, oldest first.
pub open spec fn drain_batch(v: Seq<TurnView>, max_stm: nat, retain_permille: nat) -> Option<Seq<MessageView>> {
    if v.len() >= max_stm {
        Some(after_last_boundary(selected_messages(
            mark_latest(v).take(v.len() - keep_count(max_stm, retain_permille)),
        )))
    } else {
        None
    }
}

/// Time from the newest selected message to `now`, in milliseconds; zero
/// for an empty store or when the difference does not fit an `i64`.
pub open spec fn since_last(v: Seq<TurnView>, now: i64) -> i64 {
    if v.len() == 0 {
        0
    } else {
        let d = now - selected_of(v.last().node).sent_at;
        if i64::MIN <= d <= i64::MAX {
            d as i64
        } else {
            0
        }
    }
}

pub open spec fn messages_view(ms: Seq<ChatMessage>) -> Seq<MessageView> {
    ms.map_values(|m: ChatMessage| m@)
}

/// Reading back from the newest message and stopping at the first boundary
/// gives the messages from `i` on, when `i` is where that read stops.
pub proof fn lemma_after_last_boundary_from(ms: Seq<MessageView>, i: int)
    requires
        0 <= i <= ms.len(),
        forall|k: int| i <= k < ms.len() ==> !(#[trigger] ms[k]).freewill,
        i == 0 || ms[i - 1].freewill,
    ensures
        after_last_boundary(ms) == ms.skip(i),
    decreases ms.len(),
{
    if ms.len() == 0 {
        assert(ms.skip(i) =~= ms);
    } else if i == ms.len() {
        assert(ms.skip(i) =~= Seq::<MessageView>::empty());
    } else {
        lemma_after_last_boundary_from(ms.drop_last(), i);
        assert(ms.skip(i) =~= ms.drop_last().skip(i).push(ms.last()));
    }
}

/// Messages added after a boundary are exactly what the read-back returns.
pub proof fn lemma_after_boundary_append(a: Seq<MessageView>, b: Seq<MessageView>)
    requires
        a.len() > 0,
        a.last().freewill,
        forall|k: int| 0 <= k < b.len() ==> !(#[trigger] b[k]).freewill,
    ensures
        after_last_boundary(a + b) == b,
{
    let ms = a + b;
    assert forall|k: int| a.len() <= k < ms.len() implies !(#[trigger] ms[k]).freewill by {
        assert(ms[k] == b[k - a.len()]);
    }
    lemma_after_last_boundary_from(ms, a.len() as int);
    assert(ms.skip(a.len() as int) =~= b);
}

/// Eviction on a store of `N ≥ max_stm` turns removes exactly the
/// `N − round(retain × max_stm)` oldest turns; the rest keep their order,
/// identifiers and versions, except that the newest one's selected message
/// now carries the boundary flag.
pub proof fn lemma_drain_removes_oldest(v: Seq<TurnView>, max_stm: nat, retain_permille: nat)
    requires
        v.len() >= max_stm,
        retain_permille <= 1000,
    ensures
        keep_count(max_stm, retain_permille) <= max_stm,
        drain_rest(v, max_stm, retain_permille).len() == keep_count(max_stm, retain_permille),
        forall|i: int|
            #![trigger drain_rest(v, max_stm, retain_permille)[i]]
            0 <= i < keep_count(max_stm, retain_permille) ==> {
                let d = v.len() - keep_count(max_stm, retain_permille);
                let rest = drain_rest(v, max_stm, retain_permille);
                &&& rest[i].id == v[i + d].id
                &&& i + d + 1 < v.len() ==> rest[i] == v[i + d]
                &&& i + d + 1 == v.len() ==> rest[i].node == mark_boundary(v[i + d].node)
            },
{
    assert((retain_permille * max_stm + 500) / 1000 <= max_stm) by (nonlinear_arith)
        requires
            retain_permille <= 1000,
    ;
}

/// Right after an eviction that kept at least one turn, the read-back since
/// the last boundary yields exactly the messages of the turns added since,
/// oldest first: the boundary message itself is left out.
pub proof fn lemma_take_after_drain(
    v: Seq<TurnView>,
    max_stm: nat,
    retain_permille: nat,
    added: Seq<TurnView>,
)
    requires
        v.len() >= max_stm,
        retain_permille <= 1000,
        keep_count(max_stm, retain_permille) > 0,
        branch_wf(v.last().node),
        forall|k: int| 0 <= k < added.len() ==> !(#[trigger] selected_of(added[k].node)).freewill,
    ensures
        after_last_boundary(selected_messages(drain_rest(v, max_stm, retain_permille) + added))
            == selected_messages(added),
{
    lemma_drain_removes_oldest(v, max_stm, retain_permille);
    let rest = drain_rest(v, max_stm, retain_permille);
    let a = selected_messages(rest);
    let b = selected_messages(added);
    assert(selected_messages(rest + added) =~= a + b);
    assert(rest.last() == rest[rest.len() - 1]);
    assert(a.last().freewill);
    lemma_after_boundary_append(a, b);
}

/// In a store with distinct keys, a turn's own key finds that turn.
pub proof fn lemma_index_of_own_key(v: Seq<TurnView>, i: int)
    requires
        keys_unique(v),
        0 <= i < v.len(),
    ensures
        index_of_key(v, v[i].id.key) == Some(i),
{
    let k = v[i].id.key;
    assert(v[i].id.key == k);
    let j = choose|j: int| 0 <= j < v.len() && v[j].id.key == k;
    if j != i {
        if j < i {
            assert(v[j].id.key != v[i].id.key);
        } else {
            assert(v[i].id.key != v[j].id.key);
        }
    }
}

/// Every turn of a well-formed store has a valid selection.
pub proof fn lemma_turn_wf(v: Seq<TurnView>, i: int)
    requires
        turns_wf(v),
        0 <= i < v.len(),
    ensures
        branch_wf(v[i].node),
{
}

impl View for ConversationStore {
    type V = Seq<TurnView>;

    closed spec fn view(&self) -> Seq<TurnView> {
        turn_entries(self.turns).map_values(|e: (TurnKey, TurnView)| e.1)
    }
}

impl ConversationStore {
    /// The map's keys are the turns' identities, and the turns are well-formed.
    pub closed spec fn wf(&self) -> bool {
        &&& turns_wf(self@)
        &&& forall|i: int|
            0 <= i < turn_entries(self.turns).len() ==> #[trigger] turn_entries(self.turns)[i].0
                == turn_entries(self.turns)[i].1.id.key
    }

    /// A well-formed store has distinct keys and valid selections.
    pub proof fn lemma_wf(&self)
        requires
            self.wf(),
        ensures
            turns_wf(self@),
    {
    }

    pub fn new() -> (r: Self)
        ensures
            r.wf(),
            r@ == Seq::<TurnView>::empty(),
    {
        let r = ConversationStore { turns: turns_new() };
        assert(r@ =~= Seq::<TurnView>::empty());
        r
    }

    pub fn len(&self) -> (r: usize)
        ensures
            r == self@.len(),
    {
        turns_len(&self.turns)
    }

    pub fn is_empty(&self) -> (r: bool)
        ensures
            r == (self@.len() == 0),
    {
        turns_len(&self.turns) == 0
    }

    /// Removes every turn.
    pub fn clear(&mut self)
        ensures
            final(self).wf(),
            final(self)@ == Seq::<TurnView>::empty(),
    {
        turns_clear(&mut self.turns);
        assert(self@ =~= Seq::<TurnView>::empty());
    }

    /// Position of the turn with identity `k`.
    pub fn index_of(&self, k: &TurnKey) -> (r: Option<usize>)
        requires
            self.wf(),
        ensures
            r matches Some(i) ==> index_of_key(self@, *k) == Some(i as int),
            r is None ==> index_of_key(self@, *k) is None,
    {
        let r = turns_index_of(&self.turns, k);
        match r {
            Some(i) => {
                assert(self@[i as int].id.key == *k);
                let ghost j = choose|j: int| 0 <= j < self@.len() && self@[j].id.key == *k;
                assert(i == j);
            },
            None => {
                assert forall|j: int| 0 <= j < self@.len() implies self@[j].id.key != *k by {
                    assert(turn_entries(self.turns)[j].0 == turn_entries(self.turns)[j].1.id.key);
                }
            },
        }
        r
    }

    /// The turn at position `i`.
    pub fn turn(&self, i: usize) -> (r: &Turn)
        requires
            i < self@.len(),
        ensures
            r@ == self@[i as int],
    {
        turns_at(&self.turns, i)
    }

    /// Adds a turn with `message` as its only version, last in order.
    pub fn add(&mut self, message: ChatMessage, identifier: MessageIdentifier, at: i64) -> (r: Result<(), StoreError>)
        requires
            old(self).wf(),
        ensures
            final(self).wf(),
            match r {
                Ok(()) => index_of_key(old(self)@, identifier@.key) is None && final(self)@
                    == old(self)@.push(
                    TurnView {
                        id: identifier@,
                        node: BranchView { versions: seq![(message@, at)], selected: 0 },
                    },
                ),
                Err(e) => e == StoreError::AlreadyExists && index_of_key(old(self)@, identifier@.key) is Some
                    && final(self)@ == old(self)@,
            },
    {
        let k = identifier.key();
        match self.index_of(&k) {
            Some(_) => Err(StoreError::AlreadyExists),
            None => {
                let t = Turn { identifier, node: BranchNode::new(message, at) };
                let ghost tv = t@;
                assert forall|i: int| 0 <= i < turn_entries(self.turns).len() implies turn_entries(
                    self.turns,
                )[i].0 != k by {
                    assert(turn_entries(self.turns)[i].0 == turn_entries(self.turns)[i].1.id.key);
                    assert(self@[i].id.key != k);
                }
                turns_insert(&mut self.turns, k, t);
                assert(self@ =~= old(self)@.push(tv));
                Ok(())
            },
        }
    }

    /// The versions of the turn with identity `k`.
    pub fn find(&self, k: &TurnKey) -> (r: Option<&BranchNode>)
        requires
            self.wf(),
        ensures
            match index_of_key(self@, *k) {
                Some(i) => r matches Some(n) && n@ == self@[i].node,
                None => r is None,
            },
    {
        match self.index_of(k) {
            Some(i) => Some(&turns_at(&self.turns, i).node),
            None => None,
        }
    }

    /// Position, identifier and versions of the turn with identity `k`.
    pub fn find_full(&self, k: &TurnKey) -> (r: Option<(usize, &MessageIdentifier, &BranchNode)>)
        requires
            self.wf(),
        ensures
            match index_of_key(self@, *k) {
                Some(i) => r matches Some((j, id, n)) && j == i && id@ == self@[i].id && n@
                    == self@[i].node,
                None => r is None,
            },
    {
        match self.index_of(k) {
            Some(i) => {
                let t = turns_at(&self.turns, i);
                Some((i, &t.identifier, &t.node))
            },
            None => None,
        }
    }

    /// The newest turn's versions.
    pub fn latest(&self) -> (r: Option<&BranchNode>)
        ensures
            self@.len() == 0 ==> r is None,
            self@.len() > 0 ==> (r matches Some(n) && n@ == self@.last().node),
    {
        let n = turns_len(&self.turns);
        if n == 0 {
            None
        } else {
            Some(&turns_at(&self.turns, n - 1).node)
        }
    }

    /// The newest turn whose selected version has `role`, with its identifier.
    pub fn latest_with_role_full(&self, role: MessageRole) -> (r: Option<(&MessageIdentifier, &BranchNode)>)
        requires
            self.wf(),
        ensures
            match latest_with_role_index(self@, role) {
                Some(i) => r matches Some((id, n)) && id@ == self@[i].id && n@ == self@[i].node,
                None => r is None,
            },
    {
        let mut i = turns_len(&self.turns);
        assert(self@.take(i as int) =~= self@);
        while i > 0
            invariant
                i <= self@.len(),
                latest_with_role_index(self@, role) == latest_with_role_index(self@.take(i as int), role),
                turns_wf(self@),
            decreases i,
        {
            let t = turns_at(&self.turns, i - 1);
            assert(self@.take(i as int).drop_last() =~= self@.take(i - 1));
            assert(branch_wf(self@[i - 1].node));
            if t.node.selected().role == role {
                return Some((&t.identifier, &t.node));
            }
            i = i - 1;
        }
        None
    }

    /// The newest turn whose selected version has `role`.
    pub fn latest_with_role(&self, role: MessageRole) -> (r: Option<&BranchNode>)
        requires
            self.wf(),
        ensures
            match latest_with_role_index(self@, role) {
                Some(i) => r matches Some(n) && n@ == self@[i].node,
                None => r is None,
            },
    {
        match self.latest_with_role_full(role) {
            Some((_, n)) => Some(n),
            None => None,
        }
    }

    /// Appends `message` as the selected version of the turn with identity `k`
    /// (an edit or a regeneration).
    pub fn push_version(&mut self, k: &TurnKey, message: ChatMessage, at: i64) -> (r: Result<(), StoreError>)
        requires
            old(self).wf(),
            index_of_key(old(self)@, *k) matches Some(i) ==> old(self)@[i].node.versions.len() < usize::MAX,
        ensures
            final(self).wf(),
            match index_of_key(old(self)@, *k) {
                Some(i) => r is Ok && final(self)@ == old(self)@.update(
                    i,
                    TurnView {
                        node: crate::branch::push_version(old(self)@[i].node, (message@, at)),
                        ..old(self)@[i]
                    },
                ),
                None => r == Err::<(), StoreError>(StoreError::NotFound) && final(self)@ == old(self)@,
            },
    {
        match self.index_of(k) {
            Some(i) => {
                let ghost before = self@;
                let ghost entries = turn_entries(self.turns);
                let t = turns_at_mut(&mut self.turns, i);
                assert(branch_wf(before[i as int].node));
                t.node.push(message, at);
                assert(self@ =~= before.update(i as int, turn_entries(self.turns)[i as int].1));
                assert(turn_entries(self.turns)[i as int].0 == entries[i as int].0);
                assert forall|j: int| 0 <= j < turn_entries(self.turns).len() implies #[trigger] turn_entries(self.turns)[j].0
                    == turn_entries(self.turns)[j].1.id.key by {
                    assert(entries[j].0 == entries[j].1.id.key);
                }
                Ok(())
            },
            None => Err(StoreError::NotFound),
        }
    }

    /// Selects the previous version of the turn with identity `k`; the turn,
    /// if present, must have one.
    pub fn select_previous(&mut self, k: &TurnKey) -> (r: Result<(), StoreError>)
        requires
            old(self).wf(),
            index_of_key(old(self)@, *k) matches Some(i) ==> old(self)@[i].node.selected > 0,
        ensures
            final(self).wf(),
            match index_of_key(old(self)@, *k) {
                Some(i) => r is Ok && final(self)@ == old(self)@.update(
                    i,
                    TurnView {
                        node: BranchView { selected: old(self)@[i].node.selected - 1, ..old(self)@[i].node },
                        ..old(self)@[i]
                    },
                ),
                None => r == Err::<(), StoreError>(StoreError::NotFound) && final(self)@ == old(self)@,
            },
    {
        match self.index_of(k) {
            Some(i) => {
                let ghost before = self@;
                let ghost entries = turn_entries(self.turns);
                let t = turns_at_mut(&mut self.turns, i);
                assert(branch_wf(before[i as int].node));
                t.node.select_previous();
                assert(self@ =~= before.update(i as int, turn_entries(self.turns)[i as int].1));
                assert forall|j: int| 0 <= j < turn_entries(self.turns).len() implies #[trigger] turn_entries(self.turns)[j].0
                    == turn_entries(self.turns)[j].1.id.key by {
                    assert(entries[j].0 == entries[j].1.id.key);
                }
                Ok(())
            },
            None => Err(StoreError::NotFound),
        }
    }

    /// Selects the next version of the turn with identity `k`; the turn, if
    /// present, must have one.
    pub fn select_next(&mut self, k: &TurnKey) -> (r: Result<(), StoreError>)
        requires
            old(self).wf(),
            index_of_key(old(self)@, *k) matches Some(i) ==> old(self)@[i].node.selected + 1
                < old(self)@[i].node.versions.len(),
        ensures
            final(self).wf(),
            match index_of_key(old(self)@, *k) {
                Some(i) => r is Ok && final(self)@ == old(self)@.update(
                    i,
                    TurnView {
                        node: BranchView { selected: old(self)@[i].node.selected + 1, ..old(self)@[i].node },
                        ..old(self)@[i]
                    },
                ),
                None => r == Err::<(), StoreError>(StoreError::NotFound) && final(self)@ == old(self)@,
            },
    {
        match self.index_of(k) {
            Some(i) => {
                let ghost before = self@;
                let ghost entries = turn_entries(self.turns);
                let t = turns_at_mut(&mut self.turns, i);
                assert(branch_wf(before[i as int].node));
                t.node.select_next();
                assert(self@ =~= before.update(i as int, turn_entries(self.turns)[i as int].1));
                assert forall|j: int| 0 <= j < turn_entries(self.turns).len() implies #[trigger] turn_entries(self.turns)[j].0
                    == turn_entries(self.turns)[j].1.id.key by {
                    assert(entries[j].0 == entries[j].1.id.key);
                }
                Ok(())
            },
            None => Err(StoreError::NotFound),
        }
    }

    /// Moves the turn with identity `old_key` to the identifier `new_id`,
    /// keeping its versions and its place in the order.
    pub fn swap_identifiers(&mut self, old_key: &TurnKey, new_id: MessageIdentifier) -> (r: Result<(), StoreError>)
        requires
            old(self).wf(),
        ensures
            final(self).wf(),
            match (index_of_key(old(self)@, *old_key), index_of_key(old(self)@, new_id@.key)) {
                (None, _) => r == Err::<(), StoreError>(StoreError::NotFound) && final(self)@ == old(self)@,
                (Some(_), Some(_)) => r == Err::<(), StoreError>(StoreError::AlreadyExists) && final(self)@
                    == old(self)@,
                (Some(i), None) => {
                    &&& r is Ok
                    &&& final(self)@ == old(self)@.update(i, TurnView { id: new_id@, node: old(self)@[i].node })
                    &&& index_of_key(final(self)@, new_id@.key) == Some(i)
                    &&& index_of_key(final(self)@, *old_key) is None
                },
            },
    {
        let i = match self.index_of(old_key) {
            Some(i) => i,
            None => return Err(StoreError::NotFound),
        };
        let new_key = new_id.key();
        if self.index_of(&new_key).is_some() {
            return Err(StoreError::AlreadyExists);
        }
        let ghost before = self@;
        let ghost entries = turn_entries(self.turns);
        let node = turns_at(&self.turns, i).node.duplicate();
        let t = Turn { identifier: new_id, node };
        let ghost tv = t@;
        assert forall|j: int| 0 <= j < entries.len() implies entries[j].0 != new_key by {
            assert(entries[j].0 == entries[j].1.id.key);
            assert(before[j].id.key != new_key);
        }
        turns_insert(&mut self.turns, new_key, t);
        let removed = turns_swap_remove_index(&mut self.turns, i);
        let ghost after = self@;
        assert(after =~= before.update(i as int, tv));
        assert forall|j: int| 0 <= j < turn_entries(self.turns).len() implies #[trigger] turn_entries(self.turns)[j].0
            == turn_entries(self.turns)[j].1.id.key by {
            if j != i {
                assert(entries[j].0 == entries[j].1.id.key);
            }
        }
        assert(after[i as int].id.key == new_key);
        assert forall|a: int, b: int| 0 <= a < b < after.len() implies after[a].id.key != after[b].id.key by {
            if a != i && b != i {
                assert(before[a].id.key != before[b].id.key);
            } else if a == i {
                assert(before[b].id.key != new_key);
            } else {
                assert(before[a].id.key != new_key);
            }
        }
        assert(index_of_key(after, new_key) == Some(i as int));
        assert forall|j: int| 0 <= j < after.len() implies after[j].id.key != *old_key by {
            if j != i {
                assert(before[j].id.key != before[i as int].id.key);
            }
        }
        Ok(())
    }

    /// The selected message of every turn, oldest first.
    pub fn get_messages(&self) -> (r: Vec<ChatMessage>)
        requires
            self.wf(),
        ensures
            messages_view(r@) == selected_messages(self@),
    {
        let n = turns_len(&self.turns);
        let mut r: Vec<ChatMessage> = Vec::new();
        let mut i: usize = 0;
        while i < n
            invariant
                n == self@.len(),
                i <= n,
                turns_wf(self@),
                r@.len() == i,
                forall|j: int| 0 <= j < i ==> (#[trigger] r@[j])@ == selected_of(self@[j].node),
            decreases n - i,
        {
            let t = turns_at(&self.turns, i);
            assert(branch_wf(self@[i as int].node));
            r.push(t.node.selected().duplicate());
            i = i + 1;
        }
        assert(messages_view(r@) =~= selected_messages(self@));
        r
    }

    /// The messages since the last eviction boundary: read back from the
    /// newest turn, stopping before the first flagged one, and given oldest
    /// first.
    pub fn take_until_freewill(&self) -> (r: Vec<ChatMessage>)
        requires
            self.wf(),
        ensures
            messages_view(r@) == after_last_boundary(selected_messages(self@)),
    {
        let ghost ms = selected_messages(self@);
        let n = turns_len(&self.turns);
        let mut start = n;
        let mut stop = false;
        while start > 0 && !stop
            invariant
                n == self@.len(),
                ms == selected_messages(self@),
                start <= n,
                turns_wf(self@),
                forall|k: int| start <= k < n ==> !(#[trigger] ms[k]).freewill,
                stop ==> start > 0 && ms[start - 1].freewill,
            decreases start + (if stop { 0int } else { 1int }),
        {
            assert(branch_wf(self@[start - 1].node));
            if turns_at(&self.turns, start - 1).node.selected().freewill {
                stop = true;
            } else {
                start = start - 1;
            }
        }
        proof {
            lemma_after_last_boundary_from(ms, start as int);
        }
        let mut r: Vec<ChatMessage> = Vec::new();
        let mut i = start;
        while i < n
            invariant
                n == self@.len(),
                start <= i <= n,
                ms == selected_messages(self@),
                turns_wf(self@),
                r@.len() == i - start,
                forall|j: int| 0 <= j < i - start ==> (#[trigger] r@[j])@ == ms[j + start],
            decreases n - i,
        {
            assert(branch_wf(self@[i as int].node));
            r.push(turns_at(&self.turns, i).node.selected().duplicate());
            i = i + 1;
        }
        assert(messages_view(r@) =~= ms.skip(start as int));
        r
    }

    /// When the store holds `max_stm` turns or more, evicts the oldest so
    /// that `round(retain × max_stm)` remain (`retain_permille` thousandths).
    /// First the newest turn's selected message is flagged as the boundary
    /// for later evictions. Returns the evicted messages after the last
    /// boundary among them, oldest first; `None` when nothing was due.
    pub fn drain_overflow(&mut self, max_stm: usize, retain_permille: u64) -> (r: Option<Vec<ChatMessage>>)
        requires
            old(self).wf(),
            retain_permille <= 1000,
        ensures
            final(self).wf(),
            final(self)@ == drain_rest(old(self)@, max_stm as nat, retain_permille as nat),
            match r {
                Some(b) => drain_batch(old(self)@, max_stm as nat, retain_permille as nat) == Some(
                    messages_view(b@),
                ),
                None => drain_batch(old(self)@, max_stm as nat, retain_permille as nat) is None,
            },
    {
        let n = turns_len(&self.turns);
        if n < max_stm {
            return None;
        }
        let p = retain_permille as u128;
        let m = max_stm as u128;
        assert(p * m <= 1000 * 0xffff_ffff_ffff_ffffu128) by (nonlinear_arith)
            requires
                p <= 1000,
                m <= 0xffff_ffff_ffff_ffffu128,
        ;
        let keep_wide: u128 = (p * m + 500) / 1000;
        assert(keep_wide <= max_stm) by (nonlinear_arith)
            requires
                keep_wide == (retain_permille * max_stm + 500) / 1000,
                retain_permille <= 1000,
        ;
        let keep = keep_wide as usize;
        let remove = n - keep;
        let ghost before = self@;
        let ghost entries = turn_entries(self.turns);
        if n > 0 {
            let t = turns_at_mut(&mut self.turns, n - 1);
            assert(branch_wf(before[n - 1].node));
            t.node.set_selected_freewill(true);
            assert forall|j: int| 0 <= j < turn_entries(self.turns).len() implies #[trigger] turn_entries(self.turns)[j].0
                == turn_entries(self.turns)[j].1.id.key by {
                assert(entries[j].0 == entries[j].1.id.key);
            }
        }
        let ghost marked = self@;
        assert(marked =~= mark_latest(before));
        assert(turns_wf(marked)) by {
            assert forall|a: int, b: int| 0 <= a < b < marked.len() implies marked[a].id.key != marked[b].id.key by {
                assert(before[a].id.key != before[b].id.key);
            }
            assert forall|j: int| 0 <= j < marked.len() implies branch_wf(#[trigger] marked[j].node) by {
                assert(branch_wf(before[j].node));
            }
        }
        let ghost marked_entries = turn_entries(self.turns);
        let batch = turns_drain_front(&mut self.turns, remove);
        let ghost bv = marked.take(remove as int);
        assert(batch@.map_values(|t: Turn| t@) =~= bv);
        assert(self@ =~= marked.skip(remove as int));
        assert forall|j: int| 0 <= j < turn_entries(self.turns).len() implies #[trigger] turn_entries(self.turns)[j].0
            == turn_entries(self.turns)[j].1.id.key by {
            assert(marked_entries[j + remove].0 == marked_entries[j + remove].1.id.key);
        }
        assert forall|a: int, b: int| 0 <= a < b < self@.len() implies self@[a].id.key != self@[b].id.key by {
            assert(marked[a + remove].id.key != marked[b + remove].id.key);
        }
        assert forall|j: int| 0 <= j < self@.len() implies branch_wf(#[trigger] self@[j].node) by {
            assert(branch_wf(marked[j + remove].node));
        }
        let ghost ms = selected_messages(bv);
        let mut start = remove;
        let mut stop = false;
        while start > 0 && !stop
            invariant
                remove == batch@.len(),
                bv == batch@.map_values(|t: Turn| t@),
                ms == selected_messages(bv),
                start <= remove,
                forall|j: int| 0 <= j < bv.len() ==> branch_wf(#[trigger] bv[j].node),
                forall|k: int| start <= k < remove ==> !(#[trigger] ms[k]).freewill,
                stop ==> start > 0 && ms[start - 1].freewill,
            decreases start + (if stop { 0int } else { 1int }),
        {
            assert(bv[start - 1] == batch@[start - 1]@);
            assert(branch_wf(bv[start - 1].node));
            if batch[start - 1].node.selected().freewill {
                stop = true;
            } else {
                start = start - 1;
            }
        }
        proof {
            lemma_after_last_boundary_from(ms, start as int);
        }
        let mut r: Vec<ChatMessage> = Vec::new();
        let mut i = start;
        while i < remove
            invariant
                remove == batch@.len(),
                bv == batch@.map_values(|t: Turn| t@),
                ms == selected_messages(bv),
                start <= i <= remove,
                forall|j: int| 0 <= j < bv.len() ==> branch_wf(#[trigger] bv[j].node),
                r@.len() == i - start,
                forall|j: int| 0 <= j < i - start ==> (#[trigger] r@[j])@ == ms[j + start],
            decreases remove - i,
        {
            assert(bv[i as int] == batch@[i as int]@);
            assert(branch_wf(bv[i as int].node));
            r.push(batch[i].node.selected().duplicate());
            i = i + 1;
        }
        assert(messages_view(r@) =~= ms.skip(start as int));
        Some(r)
    }

    /// Milliseconds from the newest turn's selected message to `now`; zero
    /// when the store is empty.
    pub fn time_since_last_at(&self, now: i64) -> (r: i64)
        requires
            self.wf(),
        ensures
            r == since_last(self@, now),
    {
        match self.latest() {
            None => 0,
            Some(n) => {
                proof {
                    assert(branch_wf(self@[self@.len() - 1].node));
                }
                let d: i128 = now as i128 - n.selected().sent_at as i128;
                if i64::MIN as i128 <= d && d <= i64::MAX as i128 {
                    d as i64
                } else {
                    0
                }
            },
        }
    }

    /// The identity of the newest turn.
    fn latest_key(&self) -> (r: TurnKey)
        requires
            self.wf(),
            self@.len() > 0,
        ensures
            r == self@.last().id.key,
            index_of_key(self@, r) == Some((self@.len() - 1) as int),
    {
        let n = turns_len(&self.turns);
        let k = turns_at(&self.turns, n - 1).identifier.key();
        proof {
            self.lemma_wf();
            lemma_index_of_own_key(self@, n - 1);
        }
        k
    }

    /// Appends `message` as the selected version of the newest turn.
    pub fn regenerate(&mut self, message: ChatMessage, at: i64) -> (r: Result<(), StoreError>)
        requires
            old(self).wf(),
            old(self)@.len() > 0 ==> old(self)@.last().node.versions.len() < usize::MAX,
        ensures
            final(self).wf(),
            old(self)@.len() == 0 ==> r == Err::<(), StoreError>(StoreError::NotFound) && final(self)@
                == old(self)@,
            old(self)@.len() > 0 ==> r is Ok && final(self)@ == old(self)@.update(
                old(self)@.len() - 1,
                TurnView {
                    node: crate::branch::push_version(old(self)@.last().node, (message@, at)),
                    ..old(self)@.last()
                },
            ),
    {
        if self.is_empty() {
            return Err(StoreError::NotFound);
        }
        proof {
            self.lemma_wf();
            assert(branch_wf(self@[self@.len() - 1].node));
        }
        let k = self.latest_key();
        self.push_version(&k, message, at)
    }

    /// Selects the previous version of the newest turn, which must have one;
    /// returns that version and whether an older one remains.
    pub fn go_back(&mut self) -> (r: Result<(ChatMessage, bool), StoreError>)
        requires
            old(self).wf(),
            old(self)@.len() > 0 ==> old(self)@.last().node.selected > 0,
        ensures
            final(self).wf(),
            old(self)@.len() == 0 ==> r is Err && final(self)@ == old(self)@,
            old(self)@.len() > 0 ==> {
                let b = old(self)@.last().node;
                &&& final(self)@ == old(self)@.update(
                    old(self)@.len() - 1,
                    TurnView { node: BranchView { selected: b.selected - 1, ..b }, ..old(self)@.last() },
                )
                &&& r matches Ok((m, more)) && m@ == b.versions[b.selected - 1].0 && more == (b.selected - 1
                    != 0)
            },
    {
        if self.is_empty() {
            return Err(StoreError::NotFound);
        }
        proof {
            self.lemma_wf();
            assert(branch_wf(self@[self@.len() - 1].node));
        }
        let k = self.latest_key();
        let ghost before = self@;
        let _ = self.select_previous(&k);
        assert(index_of_key(before, k) == Some((before.len() - 1) as int));
        assert(self@.len() == before.len());
        let n = turns_len(&self.turns);
        proof {
            self.lemma_wf();
            assert(branch_wf(self@[n - 1].node));
        }
        let node = &turns_at(&self.turns, n - 1).node;
        let m = node.selected().duplicate();
        let more = node.has_previous();
        Ok((m, more))
    }

    /// Selects the next version of the newest turn, which must have one;
    /// returns that version and whether a newer one remains.
    pub fn go_fwd(&mut self) -> (r: Result<(ChatMessage, bool), StoreError>)
        requires
            old(self).wf(),
            old(self)@.len() > 0 ==> old(self)@.last().node.selected + 1 < old(self)@.last().node.versions.len(),
        ensures
            final(self).wf(),
            old(self)@.len() == 0 ==> r is Err && final(self)@ == old(self)@,
            old(self)@.len() > 0 ==> {
                let b = old(self)@.last().node;
                &&& final(self)@ == old(self)@.update(
                    old(self)@.len() - 1,
                    TurnView { node: BranchView { selected: b.selected + 1, ..b }, ..old(self)@.last() },
                )
                &&& r matches Ok((m, more)) && m@ == b.versions[b.selected + 1].0 && more == (b.selected + 2
                    < b.versions.len())
            },
    {
        if self.is_empty() {
            return Err(StoreError::NotFound);
        }
        proof {
            self.lemma_wf();
            assert(branch_wf(self@[self@.len() - 1].node));
        }
        let k = self.latest_key();
        let ghost before = self@;
        let _ = self.select_next(&k);
        assert(index_of_key(before, k) == Some((before.len() - 1) as int));
        assert(self@.len() == before.len());
        let n = turns_len(&self.turns);
        proof {
            self.lemma_wf();
            assert(branch_wf(self@[n - 1].node));
        }
        let node = &turns_at(&self.turns, n - 1).node;
        let m = node.selected().duplicate();
        let more = node.has_next();
        Ok((m, more))
    }

    /// Takes the turns out, oldest first, for storage.
    pub fn into_turns(self) -> (r: Vec<Turn>)
        requires
            self.wf(),
        ensures
            r@.map_values(|t: Turn| t@) == self@,
    {
        let mut turns = self.turns;
        let n = turns_len(&turns);
        let r = turns_drain_front(&mut turns, n);
        assert(turn_entries(self.turns).take(n as int) =~= turn_entries(self.turns));
        r
    }

    /// Rebuilds a store from turns in conversation order. Refused when two
    /// turns share an identity or a turn selects a version it does not have.
    pub fn from_turns(turns: Vec<Turn>) -> (r: Result<Self, StoreError>)
        ensures
            match restored(turns@.map_values(|t: Turn| t@)) {
                Some(v) => r matches Ok(s) && s.wf() && s@ == v,
                None => r is Err,
            },
            r matches Err(e) ==> (e == StoreError::AlreadyExists && !keys_unique(
                turns@.map_values(|t: Turn| t@),
            )) || (e == StoreError::InvalidSelection && exists|i: int|
                0 <= i < turns@.len() && !branch_wf(#[trigger] turns@[i]@.node)),
    {
        let ghost tv = turns@.map_values(|t: Turn| t@);
        let mut store = ConversationStore::new();
        let mut rest = turns;
        let mut i: usize = 0;
        let n = rest.len();
        while i < n
            invariant
                tv == turns@.map_values(|t: Turn| t@),
                n == tv.len(),
                rest@.len() == n - i,
                forall|j: int| 0 <= j < n - i ==> (#[trigger] rest@[j])@ == tv[i + j],
                i <= n,
                store.wf(),
                store@ == tv.take(i as int),
            decreases n - i,
        {
            let t = rest.remove(0);
            let ghost tw = t@;
            assert(tw == tv[i as int]);
            if t.node.selected_index() >= t.node.len() {
                proof {
                    assert(!branch_wf(tv[i as int].node));
                    assert(tv[i as int] == turns@[i as int]@);
                    assert(!turns_wf(tv));
                }
                return Err(StoreError::InvalidSelection);
            }
            let Turn { identifier, node } = t;
            let k = identifier.key();
            match store.index_of(&k) {
                Some(j) => {
                    proof {
                        assert(tv[j as int].id.key == tv[i as int].id.key);
                        assert(!keys_unique(tv));
                    }
                    return Err(StoreError::AlreadyExists);
                },
                None => {},
            }
            store.push_turn(Turn { identifier, node });
            assert(tv.take(i + 1) =~= tv.take(i as int).push(tw));
            i = i + 1;
        }
        assert(tv.take(n as int) =~= tv);
        Ok(store)
    }

    /// Appends a well-formed turn whose identity is new.
    fn push_turn(&mut self, t: Turn)
        requires
            old(self).wf(),
            branch_wf(t@.node),
            index_of_key(old(self)@, t@.id.key) is None,
        ensures
            final(self).wf(),
            final(self)@ == old(self)@.push(t@),
    {
        let k = t.identifier.key();
        let ghost tv = t@;
        assert forall|i: int| 0 <= i < turn_entries(self.turns).len() implies turn_entries(
            self.turns,
        )[i].0 != k by {
            assert(turn_entries(self.turns)[i].0 == turn_entries(self.turns)[i].1.id.key);
            if self@[i].id.key == k {
                assert(index_of_key(self@, k) is Some);
            }
        }
        turns_insert(&mut self.turns, k, t);
        assert(self@ =~= old(self)@.push(tv));
    }
}

/// The store rebuilt from turns in order: refused unless their identities
/// are distinct and their selections valid.
pub open spec fn restored(v: Seq<TurnView>) -> Option<Seq<TurnView>> {
    if turns_wf(v) {
        Some(v)
    } else {
        None
    }
}

impl ConversationStore {
    /// A store taken apart for storage (`into_turns`) and rebuilt from the
    /// same turns (`from_turns`) is the store it was: same identifiers,
    /// versions and selections, in the same order.
    pub proof fn lemma_restore_round_trip(&self)
        requires
            self.wf(),
        ensures
            restored(self@) == Some(self@),
    {
    }
}

} // verus!
