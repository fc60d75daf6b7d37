use std::collections::{HashMap, HashSet};
use vstd::prelude::*;
use vstd::std_specs::iter::IteratorSpec;

use crate::event::KeyEvent;
use crate::item::{items_of, DisplayItem, DisplayItemView};

verus! {

/// A physical key: its scan code, and whether it sits on the keypad.
/// Which modifiers are held does not enter into it.
#[derive(Debug, Clone, Copy, PartialEq, Eq, Structural, Hash)]
pub struct PressKey {
    pub scan_code: u32,
    pub is_numpad: bool,
}

impl PressKey {
    /// The physical key that an event is about.
    pub open spec fn of(ke: KeyEvent) -> PressKey {
        PressKey { scan_code: ke.scan_code, is_numpad: ke.is_numpad }
    }

    /// The physical key that an event is about.
    pub fn from_key_event(ke: &KeyEvent) -> (key: PressKey)
        ensures
            key == PressKey::of(*ke),
    {
        PressKey { scan_code: ke.scan_code, is_numpad: ke.is_numpad }
    }

    /// A number that stands for the key: no two keys share one.
    pub open spec fn code(self) -> int {
        self.scan_code * 2 + if self.is_numpad {
            1int
        } else {
            0int
        }
    }

    /// The number that stands for the key.
    fn slot(self) -> (c: u64)
        ensures
            c == self.code(),
    {
        let low: u64 = if self.is_numpad {
            1
        } else {
            0
        };
        (self.scan_code as u64) * 2 + low
    }
}

/// Where the release of a pressed key is to be shown: an item and, if the
/// item is a group, the place of the key stroke in it.
#[derive(Debug, Clone, Copy, PartialEq, Eq, Structural)]
pub struct PressTarget {
    pub item_id: u64,
    pub group_index: Option<usize>,
}

impl PressTarget {
    /// The target that is a whole item.
    pub fn item(item_id: u64) -> (target: PressTarget)
        ensures
            target == (PressTarget { item_id, group_index: None }),
    {
        PressTarget { item_id, group_index: None }
    }

    /// The target that is one key stroke of a group.
    pub fn group(item_id: u64, group_index: usize) -> (target: PressTarget)
        ensures
            target == (PressTarget { item_id, group_index: Some(group_index) }),
    {
        PressTarget { item_id, group_index: Some(group_index) }
    }

    /// The target after the item `item_id` has become a group whose first
    /// key stroke is what the item showed before: a target that meant the
    /// whole item now means that first key stroke.
    pub open spec fn regrouped(self, item_id: u64) -> PressTarget {
        if self.item_id == item_id && self.group_index is None {
            PressTarget { item_id, group_index: Some(0) }
        } else {
            self
        }
    }
}

/// Whether an item with the id `id` is in the list.
pub open spec fn has_id(items: Seq<DisplayItemView>, id: u64) -> bool {
    exists|i: int| 0 <= i < items.len() && #[trigger] items[i].id == id
}

/// The presses whose item is still in the list.
pub open spec fn pruned(
    presses: Map<PressKey, PressTarget>,
    items: Seq<DisplayItemView>,
) -> Map<PressKey, PressTarget> {
    Map::new(
        |key: PressKey| presses.contains_key(key) && has_id(items, presses[key].item_id),
        |key: PressKey| presses[key],
    )
}

/// The presses after the item `item_id` has become a group.
pub open spec fn regrouped(presses: Map<PressKey, PressTarget>, item_id: u64) -> Map<
    PressKey,
    PressTarget,
> {
    Map::new(
        |key: PressKey| presses.contains_key(key),
        |key: PressKey| presses[key].regrouped(item_id),
    )
}

/// The keys that are held down, each with the place where its release
/// is to be shown.
pub struct PressMap {
    slots: HashMap<u64, PressTarget>,
}

impl View for PressMap {
    type V = Map<PressKey, PressTarget>;

    closed spec fn view(&self) -> Map<PressKey, PressTarget> {
        Map::new(
            |key: PressKey| self.slots@.contains_key(key.code() as u64),
            |key: PressKey| self.slots@[key.code() as u64],
        )
    }
}

/// The ids of the items in the list.
fn live_ids(items: &Vec<DisplayItem>) -> (ids: HashSet<u64>)
    ensures
        forall|id: u64| ids@.contains(id) <==> has_id(items_of(items@), id),
{
    broadcast use vstd::std_specs::hash::group_hash_axioms;

    let mut ids: HashSet<u64> = HashSet::new();
    let mut i: usize = 0;
    while i < items.len()
        invariant
            i <= items@.len(),
            forall|id: u64|
                ids@.contains(id) <==> exists|j: int|
                    0 <= j < i && (#[trigger] items_of(items@)[j]).id == id,
        decreases items@.len() - i,
    {
        let ghost before = ids@;
        let _ = ids.insert(items[i].id);
        proof {
            let shown = items_of(items@);
            assert forall|id: u64| ids@.contains(id) <==> exists|j: int|
                0 <= j < i + 1 && (#[trigger] shown[j]).id == id by {
                if ids@.contains(id) {
                    if before.contains(id) {
                        let j = choose|j: int| 0 <= j < i && (#[trigger] shown[j]).id == id;
                        assert(0 <= j < i + 1 && shown[j].id == id);
                    } else {
                        assert(shown[i as int].id == id);
                    }
                }
                if exists|j: int| 0 <= j < i + 1 && (#[trigger] shown[j]).id == id {
                    let j = choose|j: int| 0 <= j < i + 1 && (#[trigger] shown[j]).id == id;
                    if j < i {
                        assert(before.contains(id));
                    }
                }
            }
        }
        i += 1;
    }
    ids
}

impl PressMap {
    /// A map with no key held down.
    pub fn new() -> (map: PressMap)
        ensures
            map@ == Map::<PressKey, PressTarget>::empty(),
    {
        let map = PressMap { slots: HashMap::new() };
        assert(map@ =~= Map::<PressKey, PressTarget>::empty());
        map
    }

    /// Notes that `key` is held down and that `target` shows it.
    pub fn insert(&mut self, key: PressKey, target: PressTarget)
        ensures
            final(self)@ == old(self)@.insert(key, target),
    {
        broadcast use vstd::std_specs::hash::group_hash_axioms;

        self.slots.insert(key.slot(), target);
        assert(self@ =~= old(self)@.insert(key, target));
    }

    /// Forgets `key`, and says where its release was to be shown, if it
    /// was held down.
    pub fn remove(&mut self, key: PressKey) -> (target: Option<PressTarget>)
        ensures
            final(self)@ == old(self)@.remove(key),
            target == if old(self)@.contains_key(key) {
                Some(old(self)@[key])
            } else {
                None
            },
    {
        broadcast use vstd::std_specs::hash::group_hash_axioms;

        let slot = key.slot();
        let target = self.slots.remove(&slot);
        assert(self@ =~= old(self)@.remove(key));
        target
    }

    /// Forgets every key.
    pub fn clear(&mut self)
        ensures
            final(self)@ == Map::<PressKey, PressTarget>::empty(),
    {
        self.slots.clear();
        assert(self@ =~= Map::<PressKey, PressTarget>::empty());
    }

    /// The numbers of the keys that are held down, in no particular order.
    fn slot_list(&self) -> (list: Vec<u64>)
        ensures
            list@.to_set() == self.slots@.dom(),
    {
        broadcast use vstd::std_specs::hash::group_hash_axioms;

        let mut list: Vec<u64> = Vec::new();
        for slot in it: self.slots.keys()
            invariant
                it.seq() == self.slots.keys().remaining(),
                list@.len() == it.index(),
                forall|j: int| 0 <= j < list@.len() ==> list@[j] == *it.seq()[j],
        {
            list.push(*slot);
        }
        assert(list@ =~= self.slots.keys().remaining().unref());
        list
    }

    /// Lets the presses that meant the whole item `item_id` mean its
    /// first key stroke.
    pub fn remap_item_target_to_group_first(&mut self, item_id: u64)
        ensures
            final(self)@ == regrouped(old(self)@, item_id),
    {
        broadcast use vstd::std_specs::hash::group_hash_axioms;

        let list = self.slot_list();
        let ghost before = self.slots@;
        let mut i: usize = 0;
        while i < list.len()
            invariant
                i <= list@.len(),
                list@.to_set() == before.dom(),
                self.slots@.dom() == before.dom(),
                forall|slot: u64| #[trigger]
                    before.contains_key(slot) ==> self.slots@[slot] == before[slot]
                        || self.slots@[slot] == before[slot].regrouped(item_id),
                forall|j: int|
                    0 <= j < i ==> self.slots@[#[trigger] list@[j]] == before[list@[j]].regrouped(
                        item_id,
                    ),
            decreases list@.len() - i,
        {
            let slot = list[i];
            assert(list@.to_set().contains(list@[i as int]));
            let found = self.slots.get(&slot);
            if let Some(target) = found {
                if target.item_id == item_id && target.group_index.is_none() {
                    let moved = PressTarget { item_id, group_index: Some(0) };
                    assert(moved == target.regrouped(item_id));
                    assert(moved.regrouped(item_id) == moved);
                    self.slots.insert(slot, moved);
                    assert(self.slots@.dom() =~= before.dom());
                }
            }
            i += 1;
        }
        proof {
            assert forall|slot: u64| #[trigger] before.contains_key(slot) implies self.slots@[slot]
                == before[slot].regrouped(item_id) by {
                assert(list@.to_set().contains(slot));
                let j = choose|j: int| 0 <= j < list@.len() && list@[j] == slot;
                assert(self.slots@[list@[j]] == before[list@[j]].regrouped(item_id));
            }
            assert(self@ =~= regrouped(old(self)@, item_id));
        }
    }

    /// Drops the presses whose item is no longer in `items`.
    pub fn prune(&mut self, items: &Vec<DisplayItem>)
        ensures
            final(self)@ == pruned(old(self)@, items_of(items@)),
    {
        broadcast use vstd::std_specs::hash::group_hash_axioms;

        let live = live_ids(items);
        let list = self.slot_list();
        let ghost before = self.slots@;
        let ghost shown = items_of(items@);
        let mut i: usize = 0;
        while i < list.len()
            invariant
                i <= list@.len(),
                shown == items_of(items@),
                forall|id: u64| live@.contains(id) <==> has_id(shown, id),
                list@.to_set() == before.dom(),
                forall|slot: u64| #[trigger]
                    self.slots@.contains_key(slot) ==> before.contains_key(slot)
                        && self.slots@[slot] == before[slot],
                forall|slot: u64| #[trigger]
                    before.contains_key(slot) && has_id(shown, before[slot].item_id)
                        ==> self.slots@.contains_key(slot),
                forall|j: int|
                    0 <= j < i && !has_id(shown, before[#[trigger] list@[j]].item_id)
                        ==> !self.slots@.contains_key(list@[j]),
            decreases list@.len() - i,
        {
            let slot = list[i];
            assert(list@.to_set().contains(list@[i as int]));
            let found = self.slots.get(&slot);
            if let Some(target) = found {
                if !live.contains(&target.item_id) {
                    self.slots.remove(&slot);
                }
            }
            i += 1;
        }
        proof {
            assert forall|slot: u64| #[trigger]
                before.contains_key(slot) && !has_id(shown, before[slot].item_id)
                    implies !self.slots@.contains_key(slot) by {
                assert(list@.to_set().contains(slot));
                let j = choose|j: int| 0 <= j < list@.len() && list@[j] == slot;
                assert(!self.slots@.contains_key(list@[j]));
            }
            assert(self@ =~= pruned(old(self)@, items_of(items@)));
        }
    }
}

} // verus!
