//! A slot-based arena that hands out stable `u32` identifiers for the
//! objects it stores and reuses the slots of freed objects.

use vstd::prelude::*;
use std::marker::PhantomData;

verus! {

/// Identifier types that an [`Arena`] hands out: a thin wrapper around the
/// raw slot index.
pub trait ArenaId: Copy + Sized {
    /// The raw slot index that this identifier stands for.
    spec fn raw(self) -> u32;

    fn from_u32(raw: u32) -> (id: Self)
        ensures
            id.raw() == raw,
    ;

    fn into_u32(self) -> (raw: u32)
        ensures
            raw == self.raw(),
    ;
}

/// Number of occupied slots in a slot sequence.
pub open spec fn count_occupied<T>(slots: Seq<Option<T>>) -> nat
    decreases slots.len(),
{
    if slots.len() == 0 {
        0
    } else {
        count_occupied(slots.drop_last()) + (if slots.last() is Some { 1nat } else { 0nat })
    }
}

/// Replacing one slot changes the occupied count by the difference of the
/// old and the new slot's occupancy.
pub proof fn lemma_count_occupied_update<T>(slots: Seq<Option<T>>, i: int, v: Option<T>)
    requires
        0 <= i < slots.len(),
    ensures
        count_occupied(slots.update(i, v)) + (if slots[i] is Some { 1int } else { 0int })
            == count_occupied(slots) + (if v is Some { 1int } else { 0int }),
    decreases slots.len(),
{
    let t = slots.update(i, v);
    if i == slots.len() - 1 {
        assert(t.drop_last() =~= slots.drop_last());
    } else {
        assert(t.drop_last() =~= slots.drop_last().update(i, v));
        lemma_count_occupied_update(slots.drop_last(), i, v);
    }
}

/// The indices of the occupied slots.
pub open spec fn occupied_ids<T>(slots: Seq<Option<T>>) -> Set<u32> {
    Set::new(|i: u32| (i as int) < slots.len() && slots[i as int] is Some)
}

/// The occupied count is the number of occupied slot indices, when every
/// index fits in a `u32`.
pub proof fn lemma_count_occupied_ids<T>(slots: Seq<Option<T>>)
    requires
        slots.len() <= u32::MAX as int + 1,
    ensures
        occupied_ids(slots).finite(),
        occupied_ids(slots).len() == count_occupied(slots),
    decreases slots.len(),
{
    if slots.len() == 0 {
        assert(occupied_ids(slots) =~= Set::<u32>::empty());
    } else {
        let prev = slots.drop_last();
        lemma_count_occupied_ids(prev);
        let last = (slots.len() - 1) as u32;
        if slots.last() is Some {
            assert(occupied_ids(slots) =~= occupied_ids(prev).insert(last));
            assert(!occupied_ids(prev).contains(last));
        } else {
            assert(occupied_ids(slots) =~= occupied_ids(prev));
        }
    }
}

/// The occupied count of two slot sequences joined is the sum of theirs.
pub proof fn lemma_count_occupied_concat<T>(a: Seq<Option<T>>, b: Seq<Option<T>>)
    ensures
        count_occupied(a + b) == count_occupied(a) + count_occupied(b),
    decreases b.len(),
{
    if b.len() == 0 {
        assert(a + b =~= a);
    } else {
        lemma_count_occupied_concat(a, b.drop_last());
        assert((a + b).drop_last() =~= a + b.drop_last());
        assert((a + b).last() == b.last());
    }
}

/// The occupied count from slot `p` on: slot `p`'s occupancy and the count
/// from `p + 1` on.
pub proof fn lemma_count_occupied_from<T>(s: Seq<Option<T>>, p: int)
    requires
        0 <= p < s.len(),
    ensures
        count_occupied(s.subrange(p, s.len() as int)) == (if s[p] is Some { 1nat } else { 0nat })
            + count_occupied(s.subrange(p + 1, s.len() as int)),
{
    let head = seq![s[p]];
    assert(s.subrange(p, s.len() as int) =~= head + s.subrange(p + 1, s.len() as int));
    lemma_count_occupied_concat(head, s.subrange(p + 1, s.len() as int));
    assert(head.drop_last() =~= Seq::<Option<T>>::empty());
    assert(count_occupied(Seq::<Option<T>>::empty()) == 0);
    assert(head.last() == s[p]);
    assert(count_occupied(head) == (if s[p] is Some { 1nat } else { 0nat }));
}

/// An occupied count never exceeds the number of slots.
pub proof fn lemma_count_occupied_bound<T>(slots: Seq<Option<T>>)
    ensures
        count_occupied(slots) <= slots.len(),
    decreases slots.len(),
{
    if slots.len() > 0 {
        lemma_count_occupied_bound(slots.drop_last());
    }
}

/// Slot-based arena that owns a collection of `T` and returns stable `u32` IDs.
#[derive(Debug)]
pub struct Arena<T, ID: ArenaId> {
    items: Vec<Option<T>>,
    vacant_indices: Vec<u32>,
    _phantom: PhantomData<ID>,
}

impl<T, ID: ArenaId> Arena<T, ID> {
    /// The slots, occupied or not, in index order.
    pub closed spec fn slots(&self) -> Seq<Option<T>> {
        self.items@
    }

    /// The stack of freed slot indices; the last one is reused first.
    pub closed spec fn free_stack(&self) -> Seq<u32> {
        self.vacant_indices@
    }

    /// The stored objects, keyed by slot index.
    pub open spec fn view(&self) -> Map<u32, T> {
        Map::new(
            |i: u32| (i as int) < self.slots().len() && self.slots()[i as int] is Some,
            |i: u32| self.slots()[i as int]->Some_0,
        )
    }

    /// The slot index that the next `allocate` hands out.
    pub open spec fn next_index(&self) -> int {
        if self.free_stack().len() > 0 {
            self.free_stack().last() as int
        } else {
            self.slots().len() as int
        }
    }

    /// Whether one more object fits: every slot index must fit in a `u32`.
    pub open spec fn has_room(&self) -> bool {
        self.free_stack().len() > 0 || self.slots().len() <= u32::MAX
    }

    /// Internal consistency: the free stack lists exactly the empty slots,
    /// each once, and every slot index fits in a `u32`.
    pub open spec fn wf(&self) -> bool {
        &&& self.slots().len() <= u32::MAX as int + 1
        &&& count_occupied(self.slots()) + self.free_stack().len() == self.slots().len()
        &&& forall|k: int|
            0 <= k < self.free_stack().len() ==> {
                &&& (self.free_stack()[k] as int) < self.slots().len()
                &&& self.slots()[self.free_stack()[k] as int] is None
            }
        &&& forall|k: int, l: int|
            0 <= k < l < self.free_stack().len() ==> self.free_stack()[k] != self.free_stack()[l]
        &&& forall|j: int|
            0 <= j < self.slots().len() && self.slots()[j] is None ==> self.free_stack().contains(
                j as u32,
            )
    }

    pub fn new() -> (arena: Self)
        ensures
            arena.wf(),
            arena.slots() == Seq::<Option<T>>::empty(),
            arena.free_stack() == Seq::<u32>::empty(),
            arena@ == Map::<u32, T>::empty(),
    {
        let arena = Arena { items: Vec::new(), vacant_indices: Vec::new(), _phantom: PhantomData };
        assert(arena@ =~= Map::<u32, T>::empty());
        arena
    }

    pub fn with_capacity(cap: usize) -> (arena: Self)
        ensures
            arena.wf(),
            arena.slots() == Seq::<Option<T>>::empty(),
            arena.free_stack() == Seq::<u32>::empty(),
            arena@ == Map::<u32, T>::empty(),
    {
        let arena = Arena {
            items: Vec::with_capacity(cap),
            vacant_indices: Vec::new(),
            _phantom: PhantomData,
        };
        assert(arena@ =~= Map::<u32, T>::empty());
        arena
    }

    /// Stores `value` in the most recently freed slot, or in a new slot at
    /// the end when no slot is free, and returns the slot's identifier.
    pub fn allocate(&mut self, value: T) -> (id: ID)
        requires
            old(self).wf(),
            old(self).has_room(),
        ensures
            final(self).wf(),
            id.raw() as int == old(self).next_index(),
            !old(self)@.contains_key(id.raw()),
            final(self)@ == old(self)@.insert(id.raw(), value),
            final(self).slots() == (if old(self).free_stack().len() > 0 {
                old(self).slots().update(id.raw() as int, Some(value))
            } else {
                old(self).slots().push(Some(value))
            }),
            final(self).free_stack() == (if old(self).free_stack().len() > 0 {
                old(self).free_stack().drop_last()
            } else {
                old(self).free_stack()
            }),
    {
        let idx: u32 = match self.vacant_indices.pop() {
            Some(reuse_idx) => {
                proof {
                    assert(old(self).free_stack()[old(self).free_stack().len() - 1] == reuse_idx);
                }
                self.items.set(reuse_idx as usize, Some(value));
                reuse_idx
            },
            None => {
                let idx = self.items.len() as u32;
                self.items.push(Some(value));
                idx
            },
        };
        proof {
            let o = old(self);
            assert forall|k: int, l: int|
                0 <= k < l < self.free_stack().len() implies self.free_stack()[k]
                != self.free_stack()[l] by {
                assert(self.free_stack()[k] == o.free_stack()[k]);
                assert(self.free_stack()[l] == o.free_stack()[l]);
            }
            assert forall|j: int|
                0 <= j < self.slots().len() && self.slots()[j] is None implies self.free_stack().contains(
                j as u32,
            ) by {
                assert(j != idx as int);
                assert(o.slots()[j] is None);
                let k = choose|k: int| 0 <= k < o.free_stack().len() && o.free_stack()[k] == j as u32;
                if o.free_stack().len() > 0 {
                    assert(k != o.free_stack().len() - 1);
                    assert(self.free_stack()[k] == j as u32);
                } else {
                }
            }
            assert(self@ =~= o@.insert(idx, value));
            if o.free_stack().len() > 0 {
                lemma_count_occupied_update(o.slots(), idx as int, Some(value));
            } else {
                assert(self.slots().drop_last() =~= o.slots());
            }
        }
        ID::from_u32(idx)
    }

    /// The object stored under `id`, if its slot is occupied.
    pub fn get(&self, id: ID) -> (r: Option<&T>)
        requires
            self.wf(),
        ensures
            r is Some <==> self@.contains_key(id.raw()),
            r is Some ==> *r->Some_0 == self@[id.raw()],
    {
        let idx = id.into_u32() as usize;
        if idx < self.items.len() {
            self.items[idx].as_ref()
        } else {
            None
        }
    }

    /// Empties the slot of `id` and returns what it held; the slot becomes
    /// the next one to be reused.
    pub fn free(&mut self, id: ID) -> (r: Option<T>)
        requires
            old(self).wf(),
        ensures
            final(self).wf(),
            r is Some <==> old(self)@.contains_key(id.raw()),
            r is Some ==> r->Some_0 == old(self)@[id.raw()],
            final(self)@ == old(self)@.remove(id.raw()),
            final(self).free_stack() == (if r is Some {
                old(self).free_stack().push(id.raw())
            } else {
                old(self).free_stack()
            }),
            r is Some ==> final(self).slots() == old(self).slots().update(id.raw() as int, None),
            r is None ==> final(self).slots() == old(self).slots(),
    {
        let raw = id.into_u32();
        let idx = raw as usize;
        if idx >= self.items.len() {
            proof {
                assert(self@ =~= old(self)@.remove(raw));
            }
            return None;
        }
        let slot = self.items[idx].take();
        match slot {
            Some(value) => {
                proof {
                    assert(!old(self).free_stack().contains(raw)) by {
                        if old(self).free_stack().contains(raw) {
                            let k = choose|k: int|
                                0 <= k < old(self).free_stack().len() && old(self).free_stack()[k]
                                    == raw;
                            assert(old(self).slots()[raw as int] is None);
                        }
                    }
                }
                self.vacant_indices.push(raw);
                proof {
                    let o = old(self);
                    assert(self.slots() == o.slots().update(raw as int, None));
                    assert forall|j: int|
                        0 <= j < self.slots().len() && self.slots()[j] is None implies self.free_stack().contains(
                        j as u32,
                    ) by {
                        if j == raw as int {
                            assert(self.free_stack()[self.free_stack().len() - 1] == raw);
                        } else {
                            let k = choose|k: int|
                                0 <= k < o.free_stack().len() && o.free_stack()[k] == j as u32;
                            assert(self.free_stack()[k] == j as u32);
                        }
                    }
                    assert(self@ =~= o@.remove(raw));
                    lemma_count_occupied_update(o.slots(), raw as int, None);
                }
                Some(value)
            },
            None => {
                proof {
                    assert(self.slots() =~= old(self).slots());
                    assert(self@ =~= old(self)@.remove(raw));
                }
                None
            },
        }
    }
}

impl<T, ID: ArenaId> Arena<T, ID> {
    /// Number of slots, occupied or freed.
    pub fn slot_count(&self) -> (n: usize)
        ensures
            n == self.slots().len(),
    {
        self.items.len()
    }

    /// The number of occupied slots is the number of live ids: the ids
    /// under which the arena holds an object.
    pub proof fn lemma_len_is_live_ids(&self)
        requires
            self.wf(),
        ensures
            self@.dom().finite(),
            self@.dom().len() == count_occupied(self.slots()),
    {
        lemma_count_occupied_ids(self.slots());
        assert(self@.dom() =~= occupied_ids(self.slots()));
    }

    /// Number of occupied slots (not the capacity): the number of live ids.
    pub fn len(&self) -> (n: usize)
        requires
            self.wf(),
        ensures
            n as nat == count_occupied(self.slots()),
            n as nat == self@.dom().len(),
    {
        proof {
            self.lemma_len_is_live_ids();
        }
        let len_items = self.items.len();
        let len_vacant_indices = self.vacant_indices.len();
        len_items - len_vacant_indices
    }

    /// Mutable access to the object stored under `id`, if its slot is occupied.
    pub fn get_mut(&mut self, id: ID) -> (r: Option<&mut T>)
        requires
            old(self).wf(),
        ensures
            r is Some <==> old(self)@.contains_key(id.raw()),
            r is Some ==> *r->Some_0 == old(self)@[id.raw()],
            r is Some ==> final(self).slots() == old(self).slots().update(
                id.raw() as int,
                Some(*final(r->Some_0)),
            ),
            r is None ==> final(self).slots() == old(self).slots(),
            final(self).free_stack() == old(self).free_stack(),
            final(self)@ == (if r is Some {
                old(self)@.insert(id.raw(), *final(r->Some_0))
            } else {
                old(self)@
            }),
    {
        let idx = id.into_u32() as usize;
        if idx < self.items.len() {
            self.items[idx].as_mut()
        } else {
            None
        }
    }

    /// Overwriting an occupied slot with another object keeps the arena
    /// consistent.
    pub proof fn lemma_wf_after_overwrite(old_arena: Self, new_arena: Self, raw: u32, value: T)
        requires
            old_arena.wf(),
            old_arena@.contains_key(raw),
            new_arena.free_stack() == old_arena.free_stack(),
            new_arena.slots() == old_arena.slots().update(raw as int, Some(value)),
        ensures
            new_arena.wf(),
            new_arena@ == old_arena@.insert(raw, value),
    {
        lemma_count_occupied_update(old_arena.slots(), raw as int, Some(value));
        assert(new_arena@ =~= old_arena@.insert(raw, value));
    }

    /// Whether no slot is occupied.
    pub fn is_empty(&self) -> (b: bool)
        requires
            self.wf(),
        ensures
            b == (count_occupied(self.slots()) == 0),
            b == (self@.dom().len() == 0),
    {
        self.len() == 0
    }
}

/// Walks the occupied slots of an arena in index order.
pub struct ArenaIter<'a, T> {
    slots: &'a Vec<Option<T>>,
    pos: usize,
}

impl<'a, T> ArenaIter<'a, T> {
    /// The slots being walked.
    pub closed spec fn walked(&self) -> Seq<Option<T>> {
        self.slots@
    }

    /// Index of the first slot not yet looked at.
    pub closed spec fn position(&self) -> int {
        self.pos as int
    }

    /// How many objects the walk has yet to yield: the occupied slots from
    /// the current position on.
    pub open spec fn remaining(&self) -> nat {
        count_occupied(self.walked().subrange(self.position(), self.walked().len() as int))
    }

    /// Returns the next occupied slot's index and object, or `None` when
    /// every slot has been looked at. Each object yielded lowers the
    /// remaining count by one, and `None` comes exactly when none remains.
    pub fn next(&mut self) -> (r: Option<(u32, &'a T)>)
        requires
            old(self).position() <= old(self).walked().len() <= u32::MAX as int + 1,
        ensures
            final(self).walked() == old(self).walked(),
            old(self).position() <= final(self).position() <= final(self).walked().len(),
            forall|j: int|
                old(self).position() <= j < final(self).position() - (if r is Some { 1int } else { 0int })
                    ==> old(self).walked()[j] is None,
            r is None ==> final(self).position() == old(self).walked().len(),
            r is Some ==> old(self).position() < final(self).position(),
            r matches Some(p) ==> {
                &&& p.0 as int == final(self).position() - 1
                &&& old(self).walked()[p.0 as int] == Some(*p.1)
            },
            r is Some ==> final(self).remaining() + 1 == old(self).remaining(),
            r is None ==> old(self).remaining() == 0,
    {
        let slots: &'a Vec<Option<T>> = self.slots;
        while self.pos < slots.len()
            invariant
                self.slots == slots,
                old(self).walked() == slots@,
                old(self).position() <= self.pos <= slots@.len() <= u32::MAX as int + 1,
                forall|j: int| old(self).position() <= j < self.pos ==> slots@[j] is None,
                old(self).remaining() == count_occupied(slots@.subrange(self.pos as int, slots@.len() as int)),
            decreases slots@.len() - self.pos,
        {
            let i = self.pos;
            proof {
                lemma_count_occupied_from(slots@, i as int);
            }
            self.pos = self.pos + 1;
            match slots[i].as_ref() {
                Some(v) => {
                    return Some((i as u32, v));
                },
                None => {},
            }
        }
        proof {
            assert(slots@.subrange(slots@.len() as int, slots@.len() as int) =~= Seq::<Option<T>>::empty());
        }
        None
    }
}

impl<T, ID: ArenaId> Arena<T, ID> {
    /// An iterator over the occupied slots, in index order; it has as many
    /// objects to yield as the arena holds.
    pub fn iter(&self) -> (it: ArenaIter<'_, T>)
        requires
            self.wf(),
        ensures
            it.walked() == self.slots(),
            it.position() == 0,
            it.remaining() == count_occupied(self.slots()),
            it.remaining() == self@.dom().len(),
    {
        proof {
            assert(self.slots().subrange(0, self.slots().len() as int) =~= self.slots());
            self.lemma_len_is_live_ids();
        }
        ArenaIter { slots: &self.items, pos: 0 }
    }
}

/// Iterator over the occupied slots of an arena, giving mutable access to
/// each stored object in turn.
pub struct ArenaIterMut<'a, T> {
    /// The arena's slots, borrowed for the iteration.
    pub slots: &'a mut Vec<Option<T>>,
    /// Index of the first slot not yet looked at.
    pub pos: usize,
}

impl<'a, T> ArenaIterMut<'a, T> {
    /// The slots being walked, as they are now.
    pub closed spec fn walked(&self) -> Seq<Option<T>> {
        self.slots@
    }

    /// Index of the first slot not yet looked at.
    pub closed spec fn position(&self) -> int {
        self.pos as int
    }

    /// Returns the next occupied slot's index and its object, which may be
    /// changed in place, or `None` when every slot has been looked at.
    pub fn next(&mut self) -> (r: Option<(u32, &mut T)>)
        requires
            old(self).position() <= old(self).walked().len() <= u32::MAX as int + 1,
        ensures
            old(self).position() <= final(self).position() <= final(self).walked().len(),
            final(self).walked().len() == old(self).walked().len(),
            forall|j: int|
                old(self).position() <= j < final(self).position() - (if r is Some { 1int } else { 0int })
                    ==> old(self).walked()[j] is None,
            r is None ==> final(self).position() == old(self).walked().len()
                && final(self).walked() == old(self).walked(),
            r matches Some(p) ==> {
                &&& p.0 as int == final(self).position() - 1
                &&& old(self).walked()[p.0 as int] == Some(*p.1)
                &&& final(self).walked() == old(self).walked().update(p.0 as int, Some(*final(p.1)))
            },
    {
        while self.pos < self.slots.len()
            invariant
                old(self).position() <= self.pos <= self.slots@.len() <= u32::MAX as int + 1,
                self.slots@ == old(self).walked(),
                forall|j: int| old(self).position() <= j < self.pos ==> self.slots@[j] is None,
            decreases self.slots@.len() - self.pos,
        {
            let i = self.pos;
            self.pos = self.pos + 1;
            if self.slots[i].is_some() {
                return match self.slots[i].as_mut() {
                    Some(v) => Some((i as u32, v)),
                    None => None,
                };
            }
        }
        None
    }
}

impl<T, ID: ArenaId> Arena<T, ID> {
    /// An iterator over the occupied slots, in index order, giving mutable
    /// access to each object.
    pub fn iter_mut(&mut self) -> (it: ArenaIterMut<'_, T>)
        requires
            old(self).wf(),
        ensures
            it.walked() == old(self).slots(),
            it.position() == 0,
            final(self).slots() == (*final(it.slots))@,
            final(self).free_stack() == old(self).free_stack(),
    {
        ArenaIterMut { slots: &mut self.items, pos: 0 }
    }
}

/// A slot that has just been freed is the one the next allocation takes.
pub proof fn lemma_freed_slot_is_reused<T, ID: ArenaId>(before: Arena<T, ID>, after: Arena<T, ID>, raw: u32)
    requires
        before.wf(),
        before@.contains_key(raw),
        after.free_stack() == before.free_stack().push(raw),
    ensures
        after.next_index() == raw,
        after.has_room(),
{
}

/// Freeing what was just allocated gives back the arena's former contents.
pub proof fn lemma_free_undoes_allocate<T, ID: ArenaId>(a0: Arena<T, ID>, a1: Arena<T, ID>, a2: Arena<T, ID>, raw: u32, value: T)
    requires
        !a0@.contains_key(raw),
        a1@ == a0@.insert(raw, value),
        a2@ == a1@.remove(raw),
    ensures
        a2@ == a0@,
{
    assert(a2@ =~= a0@);
}

} // verus!
