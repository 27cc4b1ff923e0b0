//! The change ledger: which entity indices were inserted, modified or removed,
//! and which gained or lost components, since the last synchronisation point.

use bit_set::BitSet;
use vstd::prelude::*;

verus! {

#[verifier::external_type_specification]
#[verifier::external_body]
#[verifier::reject_recursive_types(B)]
pub struct ExBitSet<B>(BitSet<B>);

/// The indices that a bit set holds.
pub uninterp spec fn bits_of(s: BitSet<u32>) -> Set<usize>;

/// Relies on `BitSet::new`: a new set is empty.
#[verifier::external_body]
fn bits_new() -> (r: BitSet<u32>)
    ensures
        bits_of(r) == Set::<usize>::empty(),
{
    BitSet::new()
}

/// Relies on `BitSet::insert`: the value is added and nothing else changes.
/// The set grows to `value + 1` bits, which overflows (and panics) for `usize::MAX`.
#[verifier::external_body]
fn bits_insert(s: &mut BitSet<u32>, value: usize)
    requires
        value < usize::MAX,
    ensures
        bits_of(*final(s)) == bits_of(*old(s)).insert(value),
{
    s.insert(value);
}

/// Relies on `BitSet::remove`: the value is taken out and nothing else changes.
#[verifier::external_body]
fn bits_remove(s: &mut BitSet<u32>, value: usize)
    ensures
        bits_of(*final(s)) == bits_of(*old(s)).remove(value),
{
    s.remove(value);
}

/// Relies on `BitSet::contains`: whether the value is in the set.
#[verifier::external_body]
fn bits_contains(s: &BitSet<u32>, value: usize) -> (r: bool)
    ensures
        r == bits_of(*s).contains(value),
{
    s.contains(value)
}

/// Relies on `BitSet::clear`: every value is taken out.
#[verifier::external_body]
fn bits_clear(s: &mut BitSet<u32>)
    ensures
        bits_of(*final(s)) == Set::<usize>::empty(),
{
    s.clear();
}

/// Relies on `BitSet::clone`: the copy holds the same values.
#[verifier::external_body]
fn bits_clone(s: &BitSet<u32>) -> (r: BitSet<u32>)
    ensures
        bits_of(r) == bits_of(*s),
{
    s.clone()
}

/// The five sets of a ledger, as mathematical sets of indices.
pub struct LedgerView {
    pub inserted: Set<usize>,
    pub modified: Set<usize>,
    pub removed: Set<usize>,
    pub component_added: Set<usize>,
    pub component_removed: Set<usize>,
}

impl LedgerView {
    /// An index is in at most one of the three lifecycle sets.
    pub open spec fn exclusive_at(self, i: usize) -> bool {
        &&& self.inserted.contains(i) ==> !self.modified.contains(i) && !self.removed.contains(i)
        &&& self.modified.contains(i) ==> !self.removed.contains(i)
    }

    /// Every index is in at most one of the three lifecycle sets.
    pub open spec fn exclusive(self) -> bool {
        forall|i: usize| #[trigger] self.exclusive_at(i)
    }

    /// Whether the index is in none of the five sets.
    pub open spec fn absent(self, i: usize) -> bool {
        &&& !self.inserted.contains(i)
        &&& !self.modified.contains(i)
        &&& !self.removed.contains(i)
        &&& !self.component_added.contains(i)
        &&& !self.component_removed.contains(i)
    }

    /// The empty ledger.
    pub open spec fn empty() -> LedgerView {
        LedgerView {
            inserted: Set::empty(),
            modified: Set::empty(),
            removed: Set::empty(),
            component_added: Set::empty(),
            component_removed: Set::empty(),
        }
    }

    /// After recording that entity `i` was created.
    pub open spec fn record_insert(self, i: usize) -> LedgerView {
        LedgerView {
            inserted: self.inserted.insert(i),
            modified: self.modified.remove(i),
            removed: self.removed.remove(i),
            ..self
        }
    }

    /// After recording that entity `i` was destroyed.
    pub open spec fn record_remove(self, i: usize) -> LedgerView {
        LedgerView {
            inserted: self.inserted.remove(i),
            modified: self.modified.remove(i),
            removed: self.removed.insert(i),
            ..self
        }
    }

    /// After recording that entity `i` changed.
    pub open spec fn record_modify(self, i: usize) -> LedgerView {
        LedgerView { modified: self.modified.insert(i), ..self }
    }

    /// After recording that entity `i` gained a component.
    pub open spec fn record_component_added(self, i: usize) -> LedgerView {
        LedgerView { component_added: self.component_added.insert(i), ..self }
    }

    /// After recording that entity `i` lost a component.
    pub open spec fn record_component_removed(self, i: usize) -> LedgerView {
        LedgerView { component_removed: self.component_removed.insert(i), ..self }
    }

    /// After retiring the lifecycle sets; the component sets stay.
    pub open spec fn cleared(self) -> LedgerView {
        LedgerView {
            inserted: Set::empty(),
            modified: Set::empty(),
            removed: Set::empty(),
            ..self
        }
    }

    /// After retiring index `i` from the first set that holds it, in the order
    /// removed, modified, inserted, component added, component removed.
    pub open spec fn consumed(self, i: usize) -> LedgerView {
        if self.removed.contains(i) {
            LedgerView { removed: self.removed.remove(i), ..self }
        } else if self.modified.contains(i) {
            LedgerView { modified: self.modified.remove(i), ..self }
        } else if self.inserted.contains(i) {
            LedgerView { inserted: self.inserted.remove(i), ..self }
        } else if self.component_added.contains(i) {
            LedgerView { component_added: self.component_added.remove(i), ..self }
        } else {
            LedgerView { component_removed: self.component_removed.remove(i), ..self }
        }
    }

    /// Whether retiring index `i` retires a positive change: anything but a
    /// lone component removal, and not an index that no set holds.
    pub open spec fn consume_result(self, i: usize) -> bool {
        self.removed.contains(i) || self.modified.contains(i) || self.inserted.contains(i)
            || self.component_added.contains(i)
    }
}


/// One lifecycle event recorded on a ledger.
pub enum LifecycleOp {
    Insert(usize),
    Remove(usize),
    Modify(usize),
}

/// The ledger after recording each event of `ops` in turn.
pub open spec fn replay(v: LedgerView, ops: Seq<LifecycleOp>) -> LedgerView
    decreases ops.len(),
{
    if ops.len() == 0 {
        v
    } else {
        let before = replay(v, ops.drop_last());
        match ops.last() {
            LifecycleOp::Insert(i) => before.record_insert(i),
            LifecycleOp::Remove(i) => before.record_remove(i),
            LifecycleOp::Modify(i) => before.record_modify(i),
        }
    }
}

/// Recording an insert or a removal leaves that index in exactly one
/// lifecycle set, whatever the ledger held before.
pub proof fn lemma_record_exclusive(v: LedgerView, i: usize)
    ensures
        v.record_insert(i).exclusive_at(i),
        v.record_remove(i).exclusive_at(i),
{
}

/// Starting from a ledger where no index is in two lifecycle sets, any run of
/// inserts and removals keeps every index in at most one of them. A modify is
/// left out: it does not evict, so an insert followed by a modify of the same
/// index leaves it both inserted and modified.
pub proof fn lemma_lifecycle_exclusive(v: LedgerView, ops: Seq<LifecycleOp>)
    requires
        v.exclusive(),
        forall|k: int| 0 <= k < ops.len() ==> !(#[trigger] ops[k] is Modify),
    ensures
        replay(v, ops).exclusive(),
    decreases ops.len(),
{
    if ops.len() > 0 {
        let rest = ops.drop_last();
        assert forall|k: int| 0 <= k < rest.len() implies !(#[trigger] rest[k] is Modify) by {
            assert(rest[k] == ops[k]);
        }
        lemma_lifecycle_exclusive(v, rest);
        assert(!(ops[ops.len() - 1] is Modify));
        let before = replay(v, rest);
        assert forall|j: usize| #[trigger] replay(v, ops).exclusive_at(j) by {
            assert(before.exclusive_at(j));
        }
    }
}

/// The empty ledger has no index in two lifecycle sets.
pub proof fn lemma_empty_exclusive()
    ensures
        LedgerView::empty().exclusive(),
{
}

/// A removal after an insert of the same index leaves it removed only.
pub proof fn lemma_insert_then_remove(v: LedgerView, x: usize)
    ensures
        v.record_insert(x).record_remove(x).removed.contains(x),
        !v.record_insert(x).record_remove(x).inserted.contains(x),
        !v.record_insert(x).record_remove(x).modified.contains(x),
{
}

/// A modify after an insert of the same index keeps it inserted, and marks
/// it modified too.
pub proof fn lemma_modify_keeps_insert(v: LedgerView, x: usize)
    ensures
        v.record_insert(x).record_modify(x).inserted.contains(x),
        v.record_insert(x).record_modify(x).modified.contains(x),
{
}

/// A component added to a removed index leaves it both removed and flagged
/// as having gained a component.
pub proof fn lemma_component_independent(v: LedgerView, x: usize)
    ensures
        v.record_remove(x).record_component_added(x).removed.contains(x),
        v.record_remove(x).record_component_added(x).component_added.contains(x),
{
}

/// Clearing retires the insert of an index but keeps its component flag.
pub proof fn lemma_clear_keeps_components(v: LedgerView, x: usize)
    ensures
        !v.record_insert(x).record_component_added(x).cleared().inserted.contains(x),
        v.record_insert(x).record_component_added(x).cleared().component_added.contains(x),
{
}

/// For an index that is removed and has gained a component, a first consume
/// reports a positive change and retires it from the removed set only; a
/// second reports a positive change again and retires the component flag.
pub proof fn lemma_consume_priority(v: LedgerView, x: usize)
    requires
        v.exclusive_at(x),
        v.removed.contains(x),
        v.component_added.contains(x),
    ensures
        v.consume_result(x),
        v.consumed(x) == (LedgerView { removed: v.removed.remove(x), ..v }),
        v.consumed(x).consume_result(x),
        v.consumed(x).consumed(x) == (LedgerView {
            removed: v.removed.remove(x),
            component_added: v.component_added.remove(x),
            ..v
        }),
{
}

/// Consuming an index that no set holds reports no change and changes nothing.
pub proof fn lemma_consume_absent(v: LedgerView, y: usize)
    requires
        v.absent(y),
    ensures
        !v.consume_result(y),
        v.consumed(y) == v,
{
    assert(v.consumed(y) =~= v) by {
        assert(v.component_removed.remove(y) =~= v.component_removed);
    }
}

/// Recording the same event twice in a row gives the ledger that recording
/// it once gives.
pub proof fn lemma_record_idempotent(v: LedgerView, i: usize)
    ensures
        v.record_insert(i).record_insert(i) == v.record_insert(i),
        v.record_remove(i).record_remove(i) == v.record_remove(i),
        v.record_modify(i).record_modify(i) == v.record_modify(i),
        v.record_component_added(i).record_component_added(i) == v.record_component_added(i),
        v.record_component_removed(i).record_component_removed(i)
            == v.record_component_removed(i),
{
    assert(v.inserted.insert(i).insert(i) =~= v.inserted.insert(i));
    assert(v.inserted.remove(i).remove(i) =~= v.inserted.remove(i));
    assert(v.modified.remove(i).remove(i) =~= v.modified.remove(i));
    assert(v.removed.insert(i).insert(i) =~= v.removed.insert(i));
    assert(v.removed.remove(i).remove(i) =~= v.removed.remove(i));
    assert(v.inserted.insert(i).remove(i) =~= v.inserted.remove(i));
    assert(v.modified.insert(i).insert(i) =~= v.modified.insert(i));
    assert(v.component_added.insert(i).insert(i) =~= v.component_added.insert(i));
    assert(v.component_removed.insert(i).insert(i) =~= v.component_removed.insert(i));
    assert(v.record_insert(i).record_insert(i) =~= v.record_insert(i));
    assert(v.record_remove(i).record_remove(i) =~= v.record_remove(i));
    assert(v.record_modify(i).record_modify(i) =~= v.record_modify(i));
    assert(v.record_component_added(i).record_component_added(i) =~= v.record_component_added(i));
    assert(v.record_component_removed(i).record_component_removed(i)
        =~= v.record_component_removed(i));
}

/// The change ledger. Each set holds entity indices.
#[derive(Debug)]
pub struct TrackResource {
    pub inserted: BitSet<u32>,
    pub modified: BitSet<u32>,
    pub removed: BitSet<u32>,
    pub component_added: BitSet<u32>,
    pub component_removed: BitSet<u32>,
}

impl View for TrackResource {
    type V = LedgerView;

    open spec fn view(&self) -> LedgerView {
        LedgerView {
            inserted: bits_of(self.inserted),
            modified: bits_of(self.modified),
            removed: bits_of(self.removed),
            component_added: bits_of(self.component_added),
            component_removed: bits_of(self.component_removed),
        }
    }
}

impl TrackResource {
    /// A ledger with all five sets empty.
    pub fn new() -> (r: TrackResource)
        ensures
            r@ == LedgerView::empty(),
    {
        TrackResource {
            inserted: bits_new(),
            modified: bits_new(),
            removed: bits_new(),
            component_removed: bits_new(),
            component_added: bits_new(),
        }
    }

    /// Records that entity `set` was created: it leaves the removed and
    /// modified sets and joins the inserted set.
    pub fn insert(&mut self, set: usize)
        requires
            set < usize::MAX,
        ensures
            final(self)@ == old(self)@.record_insert(set),
    {
        bits_remove(&mut self.removed, set);
        bits_remove(&mut self.modified, set);
        bits_insert(&mut self.inserted, set);
    }

    /// Records that entity `set` was destroyed: it leaves the inserted and
    /// modified sets and joins the removed set.
    pub fn remove(&mut self, set: usize)
        requires
            set < usize::MAX,
        ensures
            final(self)@ == old(self)@.record_remove(set),
    {
        bits_remove(&mut self.inserted, set);
        bits_remove(&mut self.modified, set);
        bits_insert(&mut self.removed, set);
    }

    /// Records that entity `set` changed; the other sets are left alone.
    pub fn modify(&mut self, set: usize)
        requires
            set < usize::MAX,
        ensures
            final(self)@ == old(self)@.record_modify(set),
    {
        bits_insert(&mut self.modified, set);
    }

    /// Records that entity `set` gained a component.
    pub fn component_add(&mut self, set: usize)
        requires
            set < usize::MAX,
        ensures
            final(self)@ == old(self)@.record_component_added(set),
    {
        bits_insert(&mut self.component_added, set);
    }

    /// Records that entity `set` lost a component.
    pub fn component_unset(&mut self, set: usize)
        requires
            set < usize::MAX,
        ensures
            final(self)@ == old(self)@.record_component_removed(set),
    {
        bits_insert(&mut self.component_removed, set);
    }

    /// Empties the inserted, modified and removed sets. The component sets
    /// are kept.
    pub fn clear(&mut self)
        ensures
            final(self)@ == old(self)@.cleared(),
    {
        bits_clear(&mut self.inserted);
        bits_clear(&mut self.modified);
        bits_clear(&mut self.removed);
    }

    /// Retires `identifier` from the first set that holds it, checking removed,
    /// modified, inserted, component added and component removed in that order.
    /// Returns whether that was a positive change: `false` for a component
    /// removal, and `false` where no set holds the index.
    pub fn remove_if_any_contains(&mut self, identifier: usize) -> (r: bool)
        ensures
            final(self)@ == old(self)@.consumed(identifier),
            r == old(self)@.consume_result(identifier),
    {
        if bits_contains(&self.removed, identifier) {
            bits_remove(&mut self.removed, identifier);
            return true;
        }
        if bits_contains(&self.modified, identifier) {
            bits_remove(&mut self.modified, identifier);
            return true;
        }
        if bits_contains(&self.inserted, identifier) {
            bits_remove(&mut self.inserted, identifier);
            return true;
        }
        if bits_contains(&self.component_added, identifier) {
            bits_remove(&mut self.component_added, identifier);
            return true;
        }
        if bits_contains(&self.component_removed, identifier) {
            bits_remove(&mut self.component_removed, identifier);
            return false;
        }
        proof {
            assert(old(self)@.consumed(identifier) =~= old(self)@) by {
                assert(bits_of(self.component_removed).remove(identifier) =~= bits_of(
                    self.component_removed,
                ));
            }
        }
        false
    }
}

impl Clone for TrackResource {
    /// An independent copy of all five sets.
    fn clone(&self) -> (r: Self)
        ensures
            r@ == self@,
    {
        TrackResource {
            inserted: bits_clone(&self.inserted),
            modified: bits_clone(&self.modified),
            removed: bits_clone(&self.removed),
            component_added: bits_clone(&self.component_added),
            component_removed: bits_clone(&self.component_removed),
        }
    }
}

} // verus!
