//! The entity table of a world: every entity gets an index of its own,
//! entities attached during a tick join the table at the tick's end, and
//! entities that asked to close leave it.

use vstd::prelude::*;

verus! {

/// What the world keeps of each entity: its index, and whether it asked to
/// leave the world.
#[derive(PartialEq, Eq, Structural, Copy, Clone, Debug, Default)]
pub struct EntityInfo {
    pub index: usize,
    pub close: bool,
}

/// An entity of the world with its info.
pub struct Slot<T> {
    pub info: EntityInfo,
    pub entity: T,
}

/// The slots of `list` whose entity did not ask to close, in order.
pub open spec fn kept<T>(list: Seq<Slot<T>>) -> Seq<Slot<T>> {
    list.filter(|slot: Slot<T>| !slot.info.close)
}

/// The entities of a world. Index 0 is kept for the level itself; the
/// entities of the level take the indices from 1 up, and every entity
/// attached later takes the next index.
pub struct EntityTable<T> {
    entity_list: Vec<Slot<T>>,
    entity_attach: Vec<Slot<T>>,
    entity_index: usize,
}

impl<T> EntityTable<T> {
    /// The entities in the world, in order.
    pub closed spec fn live(self) -> Seq<Slot<T>> {
        self.entity_list@
    }

    /// The entities attached during this tick, in order.
    pub closed spec fn waiting(self) -> Seq<Slot<T>> {
        self.entity_attach@
    }

    /// The index the next entity will take.
    pub closed spec fn next_index(self) -> usize {
        self.entity_index
    }

    /// No two entities share an index, every index is at least 1 and below
    /// the next index.
    pub open spec fn well_formed(self) -> bool {
        let all = self.live() + self.waiting();
        &&& forall|i: int, j: int|
            0 <= i < j < all.len() ==> #[trigger] all[i].info.index != #[trigger] all[j].info.index
        &&& forall|i: int|
            0 <= i < all.len() ==> 1 <= #[trigger] all[i].info.index < self.next_index()
        &&& self.next_index() >= 1
    }

    /// The world of a level: its entities take the indices 1, 2, ... in
    /// order, and none has asked to close.
    pub fn new(level: Vec<T>) -> (table: Self)
        requires
            level@.len() + 1 < usize::MAX,
        ensures
            table.well_formed(),
            table.live().len() == level@.len(),
            forall|i: int|
                0 <= i < level@.len() ==> #[trigger] table.live()[i].entity == level@[i]
                    && table.live()[i].info == (EntityInfo { index: (i + 1) as usize, close: false }),
            table.waiting().len() == 0,
            table.next_index() == level@.len() + 1,
    {
        let mut level = level;
        let ghost all = level@;
        let mut entity_list: Vec<Slot<T>> = Vec::new();
        let mut entity_index: usize = 1;
        while level.len() > 0
            invariant
                entity_index == entity_list@.len() + 1,
                level@ == all.skip(entity_list@.len() as int),
                entity_list@.len() <= all.len(),
                all.len() + 1 < usize::MAX,
                forall|i: int|
                    0 <= i < entity_list@.len() ==> #[trigger] entity_list@[i] == (Slot {
                        info: EntityInfo { index: (i + 1) as usize, close: false },
                        entity: all[i],
                    }),
            decreases level@.len(),
        {
            let ghost done = entity_list@.len() as int;
            assert(level@[0] == all[done]);
            let entity = level.remove(0);
            entity_list.push(Slot { info: EntityInfo { index: entity_index, close: false }, entity });
            entity_index += 1;
            assert(all.skip(done + 1) =~= all.skip(done).remove(0));
        }
        let table = EntityTable { entity_list, entity_attach: Vec::new(), entity_index };
        proof {
            let both = table.live() + table.waiting();
            assert(both =~= table.live());
            assert forall|i: int| 0 <= i < both.len() implies #[trigger] both[i].info.index == i + 1 by {
                assert(table.live()[i].entity == all[i]);
            }
        }
        table
    }

    /// Attaches an entity during a tick: it takes the next index, which no
    /// entity holds, and waits for the tick's end to join the world.
    pub fn entity_attach(&mut self, entity: T) -> (index: usize)
        requires
            old(self).well_formed(),
            old(self).next_index() < usize::MAX,
        ensures
            final(self).well_formed(),
            index == old(self).next_index(),
            final(self).next_index() == index + 1,
            final(self).live() == old(self).live(),
            final(self).waiting() == old(self).waiting().push(
                Slot { info: EntityInfo { index, close: false }, entity },
            ),
            forall|i: int|
                0 <= i < old(self).live().len() ==> #[trigger] old(self).live()[i].info.index != index,
            forall|i: int|
                0 <= i < old(self).waiting().len() ==> #[trigger] old(self).waiting()[i].info.index != index,
    {
        let index = self.entity_index;
        proof {
            let old_all = self.live() + self.waiting();
            assert forall|i: int| 0 <= i < self.live().len() implies #[trigger] self.live()[i].info.index < index by {
                assert(old_all[i] == self.live()[i]);
            }
            assert forall|i: int| 0 <= i < self.waiting().len() implies #[trigger] self.waiting()[i].info.index < index by {
                assert(old_all[i + self.live().len()] == self.waiting()[i]);
            }
        }
        self.entity_attach.push(Slot { info: EntityInfo { index, close: false }, entity });
        self.entity_index += 1;
        proof {
            let old_all = old(self).live() + old(self).waiting();
            let all = self.live() + self.waiting();
            assert(all =~= old_all.push(Slot { info: EntityInfo { index, close: false }, entity }));
        }
        index
    }

    /// At the tick's end the entities attached during it join the world,
    /// after the others.
    pub fn merge_attached(&mut self)
        requires
            old(self).well_formed(),
        ensures
            final(self).well_formed(),
            final(self).live() == old(self).live() + old(self).waiting(),
            final(self).waiting().len() == 0,
            final(self).next_index() == old(self).next_index(),
    {
        if !self.entity_attach.is_empty() {
            self.entity_list.append(&mut self.entity_attach);
        }
        proof {
            assert(self.live() + self.waiting() =~= old(self).live() + old(self).waiting());
        }
    }

    /// The entities that asked to close leave the world; the others keep
    /// their order.
    pub fn sweep(&mut self)
        requires
            old(self).well_formed(),
        ensures
            final(self).well_formed(),
            final(self).live() == kept(old(self).live()),
            final(self).waiting() == old(self).waiting(),
            final(self).next_index() == old(self).next_index(),
    {
        let ghost start = self.entity_list@;
        let mut rest: Vec<Slot<T>> = Vec::new();
        std::mem::swap(&mut rest, &mut self.entity_list);
        let ghost count: int = 0;
        while rest.len() > 0
            invariant
                0 <= count <= start.len(),
                rest@ == start.skip(count),
                self.entity_list@ == kept(start.take(count)),
                self.entity_attach@ == old(self).waiting(),
                self.entity_index == old(self).next_index(),
            decreases rest@.len(),
        {
            let slot = rest.remove(0);
            proof {
                reveal(Seq::filter);
                assert(start.take(count + 1).drop_last() =~= start.take(count));
                assert(start.take(count + 1).last() == slot);
                assert(start.skip(count + 1) =~= start.skip(count).remove(0));
                count = count + 1;
            }
            if !slot.info.close {
                self.entity_list.push(slot);
            }
        }
        proof {
            assert(start.take(count) =~= start);
            lemma_kept(start);
            let all = self.live() + self.waiting();
            let old_all = old(self).live() + old(self).waiting();
            let n = self.live().len();
            assert forall|i: int| 0 <= i < all.len() implies exists|k: int|
                0 <= k < old_all.len() && #[trigger] all[i] == old_all[k] && (i < n <==> k < start.len())
                && (i >= n ==> k == i - n + start.len()) by {
                if i < n {
                    assert(start.contains(kept(start)[i]));
                    let k = choose|k: int| 0 <= k < start.len() && start[k] == kept(start)[i];
                    assert(old_all[k] == start[k]);
                } else {
                    assert(all[i] == old_all[i - n + start.len()]);
                }
            }
            assert forall|i: int, j: int| 0 <= i < j < all.len() implies #[trigger] all[i].info.index
                != #[trigger] all[j].info.index by {
                let ki = choose|k: int| 0 <= k < old_all.len() && all[i] == old_all[k] && (i < n <==> k < start.len())
                    && (i >= n ==> k == i - n + start.len());
                let kj = choose|k: int| 0 <= k < old_all.len() && all[j] == old_all[k] && (j < n <==> k < start.len())
                    && (j >= n ==> k == j - n + start.len());
                if j < n {
                    assert(distinct_index(start)) by {
                        assert forall|x: int, y: int| 0 <= x < y < start.len() implies #[trigger] start[x].info.index
                            != #[trigger] start[y].info.index by {
                            assert(old_all[x] == start[x]);
                            assert(old_all[y] == start[y]);
                        }
                    }
                    assert(kept(start)[i] == all[i]);
                    assert(kept(start)[j] == all[j]);
                } else if ki < kj {
                    assert(old_all[ki].info.index != old_all[kj].info.index);
                } else {
                    assert(kj < ki);
                    assert(old_all[kj].info.index != old_all[ki].info.index);
                }
            }
            assert forall|i: int| 0 <= i < all.len() implies 1 <= #[trigger] all[i].info.index
                < self.next_index() by {
                let ki = choose|k: int| 0 <= k < old_all.len() && all[i] == old_all[k] && (i < n <==> k < start.len())
                    && (i >= n ==> k == i - n + start.len());
            }
        }
    }

    /// The place in the world of the entity with the given index, when it is
    /// in the world.
    pub fn entity_position(&self, index: usize) -> (place: Option<usize>)
        ensures
            match place {
                Some(p) => p < self.live().len() && self.live()[p as int].info.index == index && forall|k: int|
                    0 <= k < p ==> #[trigger] self.live()[k].info.index != index,
                None => forall|k: int| 0 <= k < self.live().len() ==> #[trigger] self.live()[k].info.index != index,
            },
    {
        let mut k: usize = 0;
        while k < self.entity_list.len()
            invariant
                k <= self.live().len(),
                self.live() == self.entity_list@,
                forall|j: int| 0 <= j < k ==> #[trigger] self.live()[j].info.index != index,
            decreases self.entity_list@.len() - k,
        {
            if self.entity_list[k].info.index == index {
                return Some(k);
            }
            k += 1;
        }
        None
    }

    /// The entity with the given index, when it is in the world: the first
    /// one with that index.
    pub fn entity_find(&self, index: usize) -> (found: Option<&T>)
        ensures
            match found {
                Some(entity) => exists|p: int|
                    0 <= p < self.live().len() && #[trigger] self.live()[p].info.index == index && self.live()[p].entity
                        == *entity && forall|k: int| 0 <= k < p ==> #[trigger] self.live()[k].info.index != index,
                None => forall|k: int| 0 <= k < self.live().len() ==> #[trigger] self.live()[k].info.index != index,
            },
    {
        match self.entity_position(index) {
            Some(p) => Some(&self.entity_list[p].entity),
            None => None,
        }
    }

    /// The entity with the given index, when it is in the world, to change
    /// it: the first entity with that index.
    pub fn entity_find_mutable(&mut self, index: usize) -> (found: Option<&mut T>)
        ensures
            match found {
                Some(entity) => exists|p: int|
                    0 <= p < old(self).live().len() && #[trigger] old(self).live()[p].info.index == index
                        && old(self).live()[p].entity == *entity && (forall|k: int|
                        0 <= k < p ==> #[trigger] old(self).live()[k].info.index != index)
                        && final(self).live() == old(self).live().update(
                        p,
                        Slot { info: old(self).live()[p].info, entity: *final(entity) },
                    ),
                None => forall|k: int| 0 <= k < old(self).live().len() ==> #[trigger] old(self).live()[k].info.index != index,
            },
            found is None ==> final(self).live() == old(self).live(),
            final(self).waiting() == old(self).waiting(),
            final(self).next_index() == old(self).next_index(),
    {
        match self.entity_position(index) {
            Some(p) => Some(&mut self.entity_list[p].entity),
            None => None,
        }
    }

    /// The index the next attached entity will take.
    pub fn entity_index(&self) -> (index: usize)
        ensures
            index == self.next_index(),
    {
        self.entity_index
    }

    /// The number of entities in the world.
    pub fn len(&self) -> (count: usize)
        ensures
            count == self.live().len(),
    {
        self.entity_list.len()
    }

    /// The entity at a place of the world.
    pub fn entity_at(&self, place: usize) -> (slot: &Slot<T>)
        requires
            place < self.live().len(),
        ensures
            *slot == self.live()[place as int],
    {
        &self.entity_list[place]
    }

    /// The entity at a place of the world, to change it.
    pub fn entity_at_mutable(&mut self, place: usize) -> (entity: &mut T)
        requires
            place < old(self).live().len(),
        ensures
            *entity == old(self).live()[place as int].entity,
            final(self).live() == old(self).live().update(
                place as int,
                Slot { info: old(self).live()[place as int].info, entity: *final(entity) },
            ),
            final(self).waiting() == old(self).waiting(),
            final(self).next_index() == old(self).next_index(),
    {
        &mut self.entity_list[place].entity
    }

    /// The entity at a place of the world asks to leave it.
    pub fn close_at(&mut self, place: usize)
        requires
            old(self).well_formed(),
            place < old(self).live().len(),
        ensures
            final(self).well_formed(),
            final(self).live() == old(self).live().update(
                place as int,
                Slot { info: EntityInfo { close: true, ..old(self).live()[place as int].info }, ..old(self).live()[place as int] },
            ),
            final(self).waiting() == old(self).waiting(),
            final(self).next_index() == old(self).next_index(),
    {
        self.entity_list[place].info.close = true;
        proof {
            let all = self.live() + self.waiting();
            let old_all = old(self).live() + old(self).waiting();
            assert forall|i: int| 0 <= i < all.len() implies #[trigger] all[i].info.index == old_all[i].info.index by {
                if i < self.live().len() {
                    assert(all[i] == self.live()[i]);
                } else {
                    assert(all[i] == self.waiting()[i - self.live().len()]);
                }
            }
        }
    }
}

/// An entity attached during a tick is, once the attached entities join
/// the world at the tick's end, the one entity of the world found by the
/// index it was given.
pub proof fn attached_entity_found<T>(
    before: EntityTable<T>,
    attached: EntityTable<T>,
    merged: EntityTable<T>,
    entity: T,
    index: usize,
)
    requires
        before.well_formed(),
        attached.well_formed(),
        attached.live() == before.live(),
        attached.waiting() == before.waiting().push(Slot { info: EntityInfo { index, close: false }, entity }),
        merged.live() == attached.live() + attached.waiting(),
    ensures
        exists|p: int| 0 <= p < merged.live().len() && #[trigger] merged.live()[p].info.index == index,
        forall|p: int|
            0 <= p < merged.live().len() && #[trigger] merged.live()[p].info.index == index ==> merged.live()[p].entity
                == entity && !merged.live()[p].info.close,
{
    let all = attached.live() + attached.waiting();
    let last = all.len() - 1;
    assert(all[last] == Slot { info: EntityInfo { index, close: false }, entity });
    assert(merged.live()[last].info.index == index);
    assert forall|p: int|
        0 <= p < merged.live().len() && #[trigger] merged.live()[p].info.index == index implies merged.live()[p].entity
            == entity && !merged.live()[p].info.close by {
        if p != last {
            assert(all[p].info.index == index);
            if p < last {
                assert(all[p].info.index != all[last].info.index);
            }
        }
    }
}

/// Changing the entity at a place of the world, and nothing else, keeps the
/// table well formed.
pub proof fn entity_change_keeps_well_formed<T>(before: EntityTable<T>, after: EntityTable<T>, place: int, entity: T)
    requires
        before.well_formed(),
        0 <= place < before.live().len(),
        after.live() == before.live().update(place, Slot { info: before.live()[place].info, entity }),
        after.waiting() == before.waiting(),
        after.next_index() == before.next_index(),
    ensures
        after.well_formed(),
{
    let all = after.live() + after.waiting();
    let old_all = before.live() + before.waiting();
    assert forall|i: int| 0 <= i < all.len() implies #[trigger] all[i].info == old_all[i].info by {
        if i < after.live().len() {
            assert(all[i] == after.live()[i]);
            assert(old_all[i] == before.live()[i]);
        } else {
            assert(all[i] == after.waiting()[i - after.live().len()]);
            assert(old_all[i] == before.waiting()[i - before.live().len()]);
        }
    }
    assert(all.len() == old_all.len());
    assert forall|i: int, j: int| 0 <= i < j < all.len() implies #[trigger] all[i].info.index
        != #[trigger] all[j].info.index by {
        assert(all[i].info == old_all[i].info);
        assert(all[j].info == old_all[j].info);
    }
}

/// No two slots of `s` share an index.
pub open spec fn distinct_index<T>(s: Seq<Slot<T>>) -> bool {
    forall|i: int, j: int| 0 <= i < j < s.len() ==> #[trigger] s[i].info.index != #[trigger] s[j].info.index
}

proof fn lemma_kept<T>(s: Seq<Slot<T>>)
    ensures
        forall|i: int| 0 <= i < kept(s).len() ==> s.contains(#[trigger] kept(s)[i]),
        distinct_index(s) ==> distinct_index(kept(s)),
    decreases s.len(),
{
    reveal(Seq::filter);
    if s.len() > 0 {
        let d = s.drop_last();
        lemma_kept(d);
        assert(kept(s) == if !s.last().info.close {
            kept(d).push(s.last())
        } else {
            kept(d)
        });
        assert forall|i: int| 0 <= i < kept(s).len() implies s.contains(#[trigger] kept(s)[i]) by {
            if i < kept(d).len() {
                assert(d.contains(kept(d)[i]));
                let k = choose|k: int| 0 <= k < d.len() && d[k] == kept(d)[i];
                assert(s[k] == d[k]);
            } else {
                assert(s[s.len() - 1] == kept(s)[i]);
            }
        }
        if distinct_index(s) {
            assert(distinct_index(d)) by {
                assert forall|x: int, y: int| 0 <= x < y < d.len() implies #[trigger] d[x].info.index
                    != #[trigger] d[y].info.index by {
                    assert(s[x] == d[x]);
                    assert(s[y] == d[y]);
                }
            }
            if !s.last().info.close {
                assert forall|x: int, y: int| 0 <= x < y < kept(s).len() implies #[trigger] kept(s)[x].info.index
                    != #[trigger] kept(s)[y].info.index by {
                    if y == kept(s).len() - 1 {
                        assert(d.contains(kept(d)[x]));
                        let k = choose|k: int| 0 <= k < d.len() && d[k] == kept(d)[x];
                        assert(s[k] == d[k]);
                        assert(s[k].info.index != s[s.len() - 1].info.index);
                    } else {
                        assert(kept(s)[x] == kept(d)[x]);
                        assert(kept(s)[y] == kept(d)[y]);
                    }
                }
            }
        }
    }
}

} // verus!
